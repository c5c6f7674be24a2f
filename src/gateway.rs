use vstd::prelude::*;

use crate::device::{Action, Device, LAST_INDEX};
use crate::text::{chars_eq, decode_spaces, index_value, parse_index, text_eq, unspaced};

verus! {

/// The numeric code of every refused command.
pub const REFUSAL_CODE: u16 = 422;

/// Why the gateway refused a command.
#[derive(Clone, Copy, Debug, PartialEq, Eq, Structural)]
pub enum CommandError {
    NoDevice,
    BadDevice,
    NoAction,
    BadAction,
    UnsupportedAction,
    NoTarget,
    BadTarget,
}

/// The text sent back with a refusal.
pub open spec fn message_of(e: CommandError) -> Seq<char> {
    match e {
        CommandError::NoDevice => "No Device name given"@,
        CommandError::BadDevice => "Bad Device name given"@,
        CommandError::NoAction => "No Action given"@,
        CommandError::BadAction => "Bad Action given"@,
        CommandError::UnsupportedAction => "Device doesn't support Action"@,
        CommandError::NoTarget => "A target needed to be given"@,
        CommandError::BadTarget => "Target should be 0-5"@,
    }
}

impl CommandError {
    pub fn code(&self) -> (r: u16)
        ensures
            r == REFUSAL_CODE,
    {
        REFUSAL_CODE
    }

    pub fn message(&self) -> (r: &'static str)
        ensures
            r@ == message_of(*self),
    {
        match self {
            CommandError::NoDevice => {
                proof { reveal_strlit("No Device name given"); }
                "No Device name given"
            },
            CommandError::BadDevice => {
                proof { reveal_strlit("Bad Device name given"); }
                "Bad Device name given"
            },
            CommandError::NoAction => {
                proof { reveal_strlit("No Action given"); }
                "No Action given"
            },
            CommandError::BadAction => {
                proof { reveal_strlit("Bad Action given"); }
                "Bad Action given"
            },
            CommandError::UnsupportedAction => {
                proof { reveal_strlit("Device doesn't support Action"); }
                "Device doesn't support Action"
            },
            CommandError::NoTarget => {
                proof { reveal_strlit("A target needed to be given"); }
                "A target needed to be given"
            },
            CommandError::BadTarget => {
                proof { reveal_strlit("Target should be 0-5"); }
                "Target should be 0-5"
            },
        }
    }
}

/// The name/value pairs of a parameter list, as texts.
pub open spec fn pairs_view(p: Seq<(String, String)>) -> Seq<(Seq<char>, Seq<char>)> {
    p.map_values(|x: (String, String)| (x.0@, x.1@))
}

/// The value given last for `key`, as a map built from the pairs keeps it.
pub open spec fn lookup(p: Seq<(Seq<char>, Seq<char>)>, key: Seq<char>) -> Option<Seq<char>>
    decreases p.len(),
{
    if p.len() == 0 {
        None
    } else if p.last().0 == key {
        Some(p.last().1)
    } else {
        lookup(p.drop_last(), key)
    }
}

/// The value of `key`, decoded, where one is given.
pub open spec fn param(p: Seq<(Seq<char>, Seq<char>)>, key: Seq<char>) -> Option<Seq<char>> {
    match lookup(p, key) {
        Some(v) => Some(unspaced(v)),
        None => None,
    }
}

/// The action whose name is `s`.
pub open spec fn action_named(s: Seq<char>) -> Option<Action> {
    if s == "On"@ {
        Some(Action::On)
    } else if s == "Off"@ {
        Some(Action::Off)
    } else if s == "Up"@ {
        Some(Action::Up)
    } else if s == "Down"@ {
        Some(Action::Down)
    } else if s == "Set"@ {
        Some(Action::SetTarget)
    } else {
        None
    }
}

/// The action and target index that the parameters `p` command of `d`,
/// or the first reason to refuse them.
pub open spec fn command_of(d: Device, p: Seq<(Seq<char>, Seq<char>)>) -> Result<
    (Action, Option<usize>),
    CommandError,
> {
    match param(p, "action"@) {
        None => Err(CommandError::NoAction),
        Some(v) => match action_named(v) {
            None => Err(CommandError::BadAction),
            Some(a) => if !d.supports(a) {
                Err(CommandError::UnsupportedAction)
            } else if a == Action::SetTarget {
                match param(p, "target"@) {
                    None => Err(CommandError::NoTarget),
                    Some(tv) => match index_value(tv, LAST_INDEX) {
                        None => Err(CommandError::BadTarget),
                        Some(n) => Ok((a, Some(n))),
                    },
                }
            } else {
                Ok((a, None))
            },
        },
    }
}

/// The pieces of `s` between the occurrences of `sep`, as `str::split`
/// gives them: one more piece than there are separators, empty ones kept.
pub open spec fn split_on(s: Seq<char>, sep: char) -> Seq<Seq<char>>
    decreases s.len(),
{
    if s.len() == 0 {
        seq![Seq::empty()]
    } else {
        let front = split_on(s.drop_last(), sep);
        if s.last() == sep {
            front.push(Seq::empty())
        } else {
            front.update(front.len() - 1, front.last().push(s.last()))
        }
    }
}

/// For each piece that holds an `=`, the text before it and the text after
/// it up to the next `=`; pieces without one are dropped.
pub open spec fn pairs_of(pieces: Seq<Seq<char>>) -> Seq<(Seq<char>, Seq<char>)>
    decreases pieces.len(),
{
    if pieces.len() == 0 {
        Seq::empty()
    } else {
        let front = pairs_of(pieces.drop_last());
        let parts = split_on(pieces.last(), '=');
        if parts.len() >= 2 {
            front.push((parts[0], parts[1]))
        } else {
            front
        }
    }
}

/// The name/value pairs of the query text `s`, split at `&` and then at `=`.
pub open spec fn query_pairs(s: Seq<char>) -> Seq<(Seq<char>, Seq<char>)> {
    pairs_of(split_on(s, '&'))
}

/// Relies on querystring::querify: splits the query at each `&`, then each
/// piece at `=`, keeping the first two parts of the pieces that have two.
#[verifier::external_body]
fn querify(query: &str) -> (r: Vec<(String, String)>)
    ensures
        pairs_view(r@) == query_pairs(query@),
{
    querystring::querify(query).into_iter().map(|(k, v)| (k.to_string(), v.to_string())).collect()
}

/// The name/value pairs of a query text.
pub fn parse_params(query: &str) -> (r: Vec<(String, String)>)
    ensures
        pairs_view(r@) == query_pairs(query@),
{
    querify(query)
}

/// The decoded value given last for `key` in `params`.
pub fn find_param(params: &Vec<(String, String)>, key: &str) -> (r: Option<Vec<char>>)
    ensures
        r is Some == param(pairs_view(params@), key@) is Some,
        r is Some ==> r.unwrap()@ == param(pairs_view(params@), key@).unwrap(),
{
    let ghost pv = pairs_view(params@);
    let mut i: usize = params.len();
    assert(pv.subrange(0, i as int) =~= pv);
    while i > 0
        invariant
            i <= params@.len(),
            pv == pairs_view(params@),
            lookup(pv, key@) == lookup(pv.subrange(0, i as int), key@),
        decreases i,
    {
        let ghost sub = pv.subrange(0, i as int);
        assert(sub.drop_last() =~= pv.subrange(0, i - 1));
        assert(sub.last() == (params@[i - 1].0@, params@[i - 1].1@));
        let pair = &params[i - 1];
        if text_eq(pair.0.as_str(), key) {
            return Some(decode_spaces(pair.1.as_str()));
        }
        i = i - 1;
    }
    assert(pv.subrange(0, 0) =~= Seq::<(Seq<char>, Seq<char>)>::empty());
    None
}

/// The action that the characters `v` name.
pub fn parse_action(v: &Vec<char>) -> (r: Option<Action>)
    ensures
        r == action_named(v@),
{
    proof {
        reveal_strlit("On");
        reveal_strlit("Off");
        reveal_strlit("Up");
        reveal_strlit("Down");
        reveal_strlit("Set");
    }
    if chars_eq(v, "On") {
        Some(Action::On)
    } else if chars_eq(v, "Off") {
        Some(Action::Off)
    } else if chars_eq(v, "Up") {
        Some(Action::Up)
    } else if chars_eq(v, "Down") {
        Some(Action::Down)
    } else if chars_eq(v, "Set") {
        Some(Action::SetTarget)
    } else {
        None
    }
}

/// The index of the device that `params` name among `names`: the first one
/// whose name equals the decoded `device` value.
pub fn select_device(names: &Vec<String>, params: &Vec<(String, String)>) -> (r: Result<
    usize,
    CommandError,
>)
    ensures
        (r == Err::<usize, CommandError>(CommandError::NoDevice)) == (param(
            pairs_view(params@),
            "device"@,
        ) is None),
        (r == Err::<usize, CommandError>(CommandError::BadDevice)) == (param(
            pairs_view(params@),
            "device"@,
        ) matches Some(w) && forall|j: int| 0 <= j < names@.len() ==> names@[j]@ != w),
        (param(pairs_view(params@), "device"@) matches Some(w) && exists|j: int|
            0 <= j < names@.len() && names@[j]@ == w) ==> r is Ok,
        r matches Ok(i) ==> {
            &&& i < names@.len()
            &&& param(pairs_view(params@), "device"@) == Some(names@[i as int]@)
            &&& forall|j: int| 0 <= j < i ==> names@[j]@ != names@[i as int]@
        },
{
    proof {
        reveal_strlit("device");
    }
    let w = match find_param(params, "device") {
        Some(w) => w,
        None => {
            return Err(CommandError::NoDevice);
        },
    };
    let mut i: usize = 0;
    while i < names.len()
        invariant
            0 <= i <= names@.len(),
            forall|j: int| 0 <= j < i ==> names@[j]@ != w@,
            param(pairs_view(params@), "device"@) == Some(w@),
        decreases names@.len() - i,
    {
        if chars_eq(&w, names[i].as_str()) {
            assert(names@[i as int]@ == w@);
            return Ok(i);
        }
        i = i + 1;
    }
    Err(CommandError::BadDevice)
}

/// Reads the action (and, for `Set`, the target) from `params` and applies
/// it to `device`; a refused command leaves the device as it was.
pub fn apply_command(device: &mut Device, params: &Vec<(String, String)>) -> (r: Result<
    (),
    CommandError,
>)
    requires
        old(device).wf(),
    ensures
        final(device).wf(),
        match command_of(*old(device), pairs_view(params@)) {
            Err(e) => r == Err::<(), CommandError>(e) && *final(device) == *old(device),
            Ok((a, t)) => r is Ok && *final(device) == old(device).applied(a, t),
        },
{
    proof {
        reveal_strlit("action");
        reveal_strlit("target");
    }
    let v = match find_param(params, "action") {
        Some(v) => v,
        None => {
            return Err(CommandError::NoAction);
        },
    };
    let action = match parse_action(&v) {
        Some(a) => a,
        None => {
            return Err(CommandError::BadAction);
        },
    };
    if !crate::device::contains_action(&device.available_actions, action) {
        return Err(CommandError::UnsupportedAction);
    }
    let mut target: Option<usize> = None;
    if action == Action::SetTarget {
        let tv = match find_param(params, "target") {
            Some(tv) => tv,
            None => {
                return Err(CommandError::NoTarget);
            },
        };
        match parse_index(&tv, LAST_INDEX) {
            Some(n) => {
                target = Some(n);
            },
            None => {
                return Err(CommandError::BadTarget);
            },
        }
    }
    match device.take_action(action, target) {
        Ok(()) => Ok(()),
        Err(_) => Err(CommandError::UnsupportedAction),
    }
}

/// The device that a command names among the two devices, as it stands once
/// the command has been handled.
pub open spec fn chosen(first: Device, second: Device, p: Seq<(Seq<char>, Seq<char>)>) -> Result<
    usize,
    CommandError,
> {
    match param(p, "device"@) {
        None => Err(CommandError::NoDevice),
        Some(w) => if w == first.name@ {
            Ok(0)
        } else if w == second.name@ {
            Ok(1)
        } else {
            Err(CommandError::BadDevice)
        },
    }
}

/// Handles one command for the node's two devices: selects the device that
/// `params` name, then applies the action they give to it. Checks run in
/// order (device given, device known, action given, action known, action
/// supported, target given, target valid) and the first that fails is the
/// refusal. Only the selected device changes, and only when nothing fails;
/// the result is its index, `0` for `first` and `1` for `second`.
pub fn handle(first: &mut Device, second: &mut Device, params: &Vec<(String, String)>) -> (r: Result<
    usize,
    CommandError,
>)
    requires
        old(first).wf(),
        old(second).wf(),
    ensures
        final(first).wf(),
        final(second).wf(),
        match chosen(*old(first), *old(second), pairs_view(params@)) {
            Err(e) => r == Err::<usize, CommandError>(e) && *final(first) == *old(first)
                && *final(second) == *old(second),
            Ok(i) => {
                let d = if i == 0 { *old(first) } else { *old(second) };
                match command_of(d, pairs_view(params@)) {
                    Err(e) => r == Err::<usize, CommandError>(e) && *final(first) == *old(first)
                        && *final(second) == *old(second),
                    Ok((a, t)) => r == Ok::<usize, CommandError>(i) && if i == 0 {
                        *final(first) == old(first).applied(a, t) && *final(second) == *old(second)
                    } else {
                        *final(second) == old(second).applied(a, t) && *final(first) == *old(first)
                    },
                }
            },
        },
{
    let names: Vec<String> = vec![first.name.clone(), second.name.clone()];
    assert(names@[0]@ == first.name@ && names@[1]@ == second.name@);
    let i = select_device(&names, params)?;
    if i == 0 {
        apply_command(first, params)?;
    } else {
        apply_command(second, params)?;
    }
    Ok(i)
}

} // verus!
