//! Reading request inputs and assembling command-line arguments, with the
//! spec functions that contracts use to describe argument lists.
use vstd::prelude::*;
use crate::string_map::{StringMap, strings_view};
use crate::service_types::opt_view;
use crate::text::{owned, str_eq, trim, trim_str};

verus! {

/// The value stored under `key`, if any.
pub open spec fn lookup(m: Map<Seq<char>, Seq<char>>, key: Seq<char>) -> Option<Seq<char>> {
    if m.dom().contains(key) {
        Some(m[key])
    } else {
        None
    }
}

/// The value stored under `key` with surrounding white space removed, if
/// it is there and something is left of it.
pub open spec fn lookup_trimmed(m: Map<Seq<char>, Seq<char>>, key: Seq<char>) -> Option<Seq<char>> {
    if m.dom().contains(key) && trim(m[key]).len() > 0 {
        Some(trim(m[key]))
    } else {
        None
    }
}

/// Whether the value stored under `key` is exactly `true`.
pub open spec fn is_true(m: Map<Seq<char>, Seq<char>>, key: Seq<char>) -> bool {
    m.dom().contains(key) && m[key] == "true"@
}

/// `flag` followed by `value`, when there is a value.
pub open spec fn flag_value(flag: Seq<char>, value: Option<Seq<char>>) -> Seq<Seq<char>> {
    match value {
        Some(v) => seq![flag, v],
        None => Seq::empty(),
    }
}

/// `flag` alone, when `on` holds.
pub open spec fn flag_when(flag: Seq<char>, on: bool) -> Seq<Seq<char>> {
    if on {
        seq![flag]
    } else {
        Seq::empty()
    }
}

/// The value stored under `key`.
pub fn input_value(m: &StringMap, key: &str) -> (r: Option<String>)
    ensures
        opt_view(r) == lookup(m@, key@),
{
    match m.get(key) {
        Some(v) => Some(v.clone()),
        None => None,
    }
}

/// The value stored under `key`, trimmed, when something is left of it.
pub fn input_trimmed(m: &StringMap, key: &str) -> (r: Option<String>)
    ensures
        opt_view(r) == lookup_trimmed(m@, key@),
{
    match m.get(key) {
        Some(v) => {
            let t = trim_str(v.as_str());
            if t.unicode_len() == 0 {
                None
            } else {
                Some(t)
            }
        },
        None => None,
    }
}

/// Whether the value stored under `key` is exactly `true`.
pub fn input_is_true(m: &StringMap, key: &str) -> (b: bool)
    ensures
        b == is_true(m@, key@),
{
    match m.get(key) {
        Some(v) => str_eq(v.as_str(), "true"),
        None => false,
    }
}

/// An empty argument list.
pub fn no_args() -> (r: Vec<String>)
    ensures
        strings_view(r@) == Seq::<Seq<char>>::empty(),
{
    let r: Vec<String> = Vec::new();
    assert(strings_view(r@) =~= Seq::<Seq<char>>::empty());
    r
}

/// Appends one argument.
pub fn push_arg(args: &mut Vec<String>, s: &str)
    ensures
        strings_view(final(args)@) == strings_view(old(args)@).push(s@),
{
    args.push(owned(s));
    assert(strings_view(args@) =~= strings_view(old(args)@).push(s@));
}

/// Appends `flag` and the value, when there is a value.
pub fn push_flag_value(args: &mut Vec<String>, flag: &str, value: Option<String>)
    ensures
        strings_view(final(args)@) == strings_view(old(args)@) + flag_value(flag@, opt_view(value)),
{
    match value {
        Some(v) => {
            let ghost vv = v@;
            args.push(owned(flag));
            args.push(v);
            assert(strings_view(args@) =~= strings_view(old(args)@) + seq![flag@, vv]);
        },
        None => {
            assert(strings_view(args@) =~= strings_view(old(args)@) + Seq::<Seq<char>>::empty());
        },
    }
}

/// Appends `flag` when `on` holds.
pub fn push_flag_when(args: &mut Vec<String>, flag: &str, on: bool)
    ensures
        strings_view(final(args)@) == strings_view(old(args)@) + flag_when(flag@, on),
{
    if on {
        args.push(owned(flag));
        assert(strings_view(args@) =~= strings_view(old(args)@) + seq![flag@]);
    } else {
        assert(strings_view(args@) =~= strings_view(old(args)@) + Seq::<Seq<char>>::empty());
    }
}

/// Builds an argument list from string slices.
pub fn args_of(parts: &[&str]) -> (r: Vec<String>)
    ensures
        strings_view(r@) == parts@.map_values(|s: &str| s@),
{
    let mut r: Vec<String> = Vec::new();
    let mut i: usize = 0;
    while i < parts.len()
        invariant
            i <= parts@.len(),
            strings_view(r@) =~= parts@.subrange(0, i as int).map_values(|s: &str| s@),
        decreases parts@.len() - i,
    {
        let ghost prev = strings_view(r@);
        r.push(owned(parts[i]));
        assert(strings_view(r@) =~= prev.push(parts@[i as int]@));
        assert(parts@.subrange(0, i as int + 1) =~= parts@.subrange(0, i as int).push(
            parts@[i as int],
        ));
        i = i + 1;
    }
    assert(parts@.subrange(0, i as int) =~= parts@);
    r
}

} // verus!
