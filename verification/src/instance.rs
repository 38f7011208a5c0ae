use vstd::prelude::*;
use vstd::string::StringSliceAdditionalSpecFns;

verus! {

/// Whether this process is the only running instance of the application.
#[derive(Clone, Copy, Debug, PartialEq, Eq, Structural)]
pub enum IsOnlyInstance {
    Yes,
    No,
}

/// The steps of the single-instance check: ask the port whether another
/// instance answers, try to claim the port, and ask once more when the
/// claim failed.
#[derive(Clone, Copy, Debug, PartialEq, Eq, Structural)]
pub enum InstanceStage {
    FirstProbe,
    Bind,
    SecondProbe,
}

/// What to do after a step of the single-instance check.
#[derive(Clone, Copy, Debug, PartialEq, Eq, Structural)]
pub enum InstanceStep {
    /// Go on with the given step.
    Then(InstanceStage),
    /// Keep the claimed port and answer each caller with the handshake;
    /// this process is the only instance.
    Listen,
    /// The check is over.
    Done(IsOnlyInstance),
}

/// The step that follows `stage` when it `succeeded` (a probe succeeds when
/// another instance answered with the handshake; the claim succeeds when the
/// port was bound).
pub open spec fn next_instance_step(stage: InstanceStage, succeeded: bool) -> InstanceStep {
    match stage {
        InstanceStage::FirstProbe => if succeeded {
            InstanceStep::Done(IsOnlyInstance::No)
        } else {
            InstanceStep::Then(InstanceStage::Bind)
        },
        InstanceStage::Bind => if succeeded {
            InstanceStep::Listen
        } else {
            InstanceStep::Then(InstanceStage::SecondProbe)
        },
        InstanceStage::SecondProbe => if succeeded {
            InstanceStep::Done(IsOnlyInstance::No)
        } else {
            InstanceStep::Done(IsOnlyInstance::Yes)
        },
    }
}

/// Decides the next step of the single-instance check. A port that some
/// other program holds does not keep this process from starting.
pub fn instance_step(stage: InstanceStage, succeeded: bool) -> (r: InstanceStep)
    ensures
        r == next_instance_step(stage, succeeded),
{
    match stage {
        InstanceStage::FirstProbe => if succeeded {
            InstanceStep::Done(IsOnlyInstance::No)
        } else {
            InstanceStep::Then(InstanceStage::Bind)
        },
        InstanceStage::Bind => if succeeded {
            InstanceStep::Listen
        } else {
            InstanceStep::Then(InstanceStage::SecondProbe)
        },
        InstanceStage::SecondProbe => if succeeded {
            InstanceStep::Done(IsOnlyInstance::No)
        } else {
            InstanceStep::Done(IsOnlyInstance::Yes)
        },
    }
}

/// The answer of the whole check, given what the first probe, the claim of
/// the port and the second probe would give.
pub open spec fn instance_outcome(first: bool, bound: bool, second: bool) -> IsOnlyInstance {
    if first {
        IsOnlyInstance::No
    } else if bound {
        IsOnlyInstance::Yes
    } else if second {
        IsOnlyInstance::No
    } else {
        IsOnlyInstance::Yes
    }
}

/// Whether a probe of the port got the handshake: the connection was made,
/// as many bytes as the handshake has were read (`received`), and they are
/// the handshake's bytes.
pub fn got_handshake(received: Option<&[u8]>, handshake: &str) -> (b: bool)
    ensures
        b == (received matches Some(bytes) && bytes@ == handshake.spec_bytes()),
{
    match received {
        Some(bytes) => {
            let expected: &[u8] = handshake.as_bytes();
            if bytes.len() != expected.len() {
                return false;
            }
            let mut i: usize = 0;
            while i < bytes.len()
                invariant
                    received == Some(bytes),
                    bytes@.len() == expected@.len(),
                    expected@ == handshake.spec_bytes(),
                    i <= bytes@.len(),
                    forall|j: int| 0 <= j < i ==> bytes@[j] == expected@[j],
                decreases bytes@.len() - i,
            {
                if bytes[i] != expected[i] {
                    assert(bytes@[i as int] != expected@[i as int]);
                    return false;
                }
                i = i + 1;
            }
            assert(bytes@ =~= expected@);
            true
        },
        None => false,
    }
}

/// The text after the last `-` of `s`, or all of `s` when it has none.
pub open spec fn last_segment(s: Seq<char>) -> Seq<char>
    decreases s.len(),
{
    if s.len() == 0 {
        s
    } else if s.last() == '-' {
        Seq::empty()
    } else {
        last_segment(s.drop_last()).push(s.last())
    }
}

/// Whether every character of `d` is an ASCII digit.
pub open spec fn all_digits(d: Seq<char>) -> bool {
    forall|i: int| 0 <= i < d.len() ==> '0' <= #[trigger] d[i] <= '9'
}

/// The number that the decimal digits `d` write.
pub open spec fn decimal_value(d: Seq<char>) -> int
    decreases d.len(),
{
    if d.len() == 0 {
        0
    } else {
        decimal_value(d.drop_last()) * 10 + (d.last() as int - '0' as int)
    }
}

/// The `u32` that `t` writes in decimal, with an optional leading `+`; none
/// when it is empty, holds anything but digits, or is too large.
pub open spec fn parsed_u32(t: Seq<char>) -> Option<u32> {
    let d = if t.len() > 0 && t[0] == '+' {
        t.drop_first()
    } else {
        t
    };
    if d.len() > 0 && all_digits(d) && decimal_value(d) <= u32::MAX {
        Some(decimal_value(d) as u32)
    } else {
        None
    }
}

/// The user id that a Windows security identifier such as
/// `S-1-5-21-…-1001` ends with: its last part read as a number, or 0 when
/// that part is not one.
pub open spec fn uid_of_sid(sid: Seq<char>) -> u32 {
    match parsed_u32(last_segment(sid)) {
        Some(v) => v,
        None => 0,
    }
}

proof fn lemma_decimal_value_grows(d: Seq<char>, k: int)
    requires
        all_digits(d),
        0 <= k <= d.len(),
    ensures
        decimal_value(d.take(k)) <= decimal_value(d),
        0 <= decimal_value(d.take(k)),
    decreases d.len(),
{
    if k < d.len() {
        lemma_decimal_value_grows(d.drop_last(), k);
        assert(d.drop_last().take(k) =~= d.take(k));
        assert(all_digits(d.drop_last()));
        lemma_decimal_value_grows(d.drop_last(), d.len() - 1);
        assert(d.drop_last().take(d.len() - 1) =~= d.drop_last());
    } else {
        assert(d.take(k) =~= d);
        if d.len() > 0 {
            lemma_decimal_value_grows(d.drop_last(), d.len() - 1);
            assert(d.drop_last().take(d.len() - 1) =~= d.drop_last());
        }
    }
}

proof fn lemma_last_segment(s: Seq<char>, k: int)
    requires
        0 <= k <= s.len(),
        forall|j: int| k <= j < s.len() ==> s[j] != '-',
        k == 0 || s[k - 1] == '-',
    ensures
        last_segment(s) =~= s.skip(k),
    decreases s.len(),
{
    if s.len() > k {
        lemma_last_segment(s.drop_last(), k);
        assert(s.drop_last().skip(k).push(s.last()) =~= s.skip(k));
    } else if s.len() > 0 {
        assert(s.skip(k) =~= Seq::<char>::empty());
    }
}

/// The user id that a Windows security identifier ends with.
pub fn uid_from_sid(sid: &str) -> (r: u32)
    ensures
        r == uid_of_sid(sid@),
{
    let n = sid.unicode_len();
    let mut start: usize = n;
    while start > 0
        invariant
            n == sid@.len(),
            start <= n,
            forall|j: int| start <= j < n ==> sid@[j] != '-',
        ensures
            start <= n,
            forall|j: int| start <= j < n ==> sid@[j] != '-',
            start == 0 || sid@[start - 1] == '-',
        decreases start,
    {
        if sid.get_char(start - 1) == '-' {
            break;
        }
        start = start - 1;
    }
    proof {
        lemma_last_segment(sid@, start as int);
    }
    let ghost t = sid@.skip(start as int);
    assert(last_segment(sid@) == t);
    let mut i: usize = start;
    if i < n && sid.get_char(i) == '+' {
        i = i + 1;
    }
    let ghost d = sid@.skip(i as int);
    assert(d =~= if t.len() > 0 && t[0] == '+' {
        t.drop_first()
    } else {
        t
    });
    if i >= n {
        return 0;
    }
    let mut acc: u64 = 0;
    let mut k: usize = i;
    while k < n
        invariant
            n == sid@.len(),
            i <= k <= n,
            d == sid@.skip(i as int),
            t == sid@.skip(start as int),
            last_segment(sid@) == t,
            d == if t.len() > 0 && t[0] == '+' {
                t.drop_first()
            } else {
                t
            },
            d.len() > 0,
            all_digits(d.take(k - i)),
            acc as int == decimal_value(d.take(k - i)),
            acc <= u32::MAX,
        decreases n - k,
    {
        let c = sid.get_char(k);
        if c < '0' || c > '9' {
            assert(d[k - i] == c);
            return 0;
        }
        let digit: u64 = (c as u32 - '0' as u32) as u64;
        assert(d.take(k - i + 1).drop_last() =~= d.take(k - i));
        assert(d.take(k - i + 1).last() == c);
        acc = acc * 10 + digit;
        if acc > u32::MAX as u64 {
            proof {
                let m = (k - i + 1) as int;
                if all_digits(d) {
                    lemma_decimal_value_grows(d, m);
                }
            }
            return 0;
        }
        k = k + 1;
    }
    assert(d.take(k - i) =~= d);
    acc as u32
}

} // verus!
