//! Logical CPUs and the compact list notation in which sysfs enumerates them.

use crate::decimal::{
    decimal, is_digit, lemma_decimal_round_trip, number, parse_number, push_decimal,
};
use crate::error::{IoError, ParseError, SysfsError};
use crate::text::{chars_of, equals, find, lemma_prefix_len_unique, prefix_len, split, trim, trimmed};
use crate::vocabulary::read_text;
use vstd::prelude::*;
use vstd::slice::slice_subrange;

verus! {

/// One logical CPU of the machine.
#[derive(Debug, Clone, Copy, PartialEq, Eq, Hash, Structural)]
pub enum Cpu {
    Index(usize),
}

impl Cpu {
    /// The number by which the platform knows this CPU.
    pub open spec fn index(self) -> usize {
        match self {
            Cpu::Index(x) => x,
        }
    }

    /// The directory of this CPU in sysfs.
    pub open spec fn path(self) -> Seq<char> {
        "/sys/devices/system/cpu/cpu"@ + decimal(self.index() as nat)
    }

    /// The number by which the platform knows this CPU.
    pub fn to_index(&self) -> (x: usize)
        ensures
            x == self.index(),
    {
        match self {
            Cpu::Index(x) => *x,
        }
    }

    /// The directory of this CPU in sysfs.
    pub fn to_path(&self) -> (p: String)
        ensures
            p@ == self.path(),
    {
        let mut p = "/sys/devices/system/cpu/cpu".to_owned();
        push_decimal(&mut p, self.to_index());
        p
    }

    /// The name of this CPU, as in `cpu3`.
    pub fn name(&self) -> (s: String)
        ensures
            s@ == "cpu"@ + decimal(self.index() as nat),
    {
        let mut s = "cpu".to_owned();
        push_decimal(&mut s, self.to_index());
        s
    }
}

/// The CPUs from `left` to `right`, both included, in rising order.
pub open spec fn range(left: usize, right: usize) -> Seq<Cpu> {
    Seq::new((right - left + 1) as nat, |i: int| Cpu::Index((left + i) as usize))
}

/// The bounds that one segment of a CPU list denotes: a single index stands
/// for itself, `left-right` for the range between the two.
pub open spec fn group_bounds(group: Seq<char>) -> Result<(usize, usize), ParseError> {
    let parts = split(group, '-');
    if parts.len() > 2 {
        Err(ParseError::MalformedRange)
    } else {
        match number(parts[0]) {
            None => Err(ParseError::NonNumeric),
            Some(left) => if parts.len() == 1 {
                Ok((left, left))
            } else {
                match number(parts[1]) {
                    None => Err(ParseError::NonNumeric),
                    Some(right) => if right < left {
                        Err(ParseError::RightLessThanLeft)
                    } else {
                        Ok((left, right))
                    },
                }
            },
        }
    }
}

/// `head` put in front of what `tail` holds, if it holds anything.
pub open spec fn prepend(head: Seq<Cpu>, tail: Result<Seq<Cpu>, ParseError>) -> Result<
    Seq<Cpu>,
    ParseError,
> {
    match tail {
        Ok(rest) => Ok(head + rest),
        Err(e) => Err(e),
    }
}

/// The CPUs that the segments denote: each segment expanded from its low to
/// its high bound, the segments from left to right, nothing left out and
/// nothing merged. The first segment that is rejected decides the error.
pub open spec fn expand(groups: Seq<Seq<char>>) -> Result<Seq<Cpu>, ParseError>
    decreases groups.len(),
{
    if groups.len() == 0 {
        Ok(Seq::empty())
    } else {
        match group_bounds(groups[0]) {
            Err(e) => Err(e),
            Ok((left, right)) => prepend(range(left, right), expand(groups.drop_first())),
        }
    }
}

/// The CPUs that a list denotes: its segments are separated by commas.
pub open spec fn list_spec(list: Seq<char>) -> Result<Seq<Cpu>, ParseError> {
    expand(split(list, ','))
}

/// What the content of the file of possible CPUs denotes.
pub open spec fn possible_spec(read: Result<Seq<char>, IoError>) -> Result<Seq<Cpu>, SysfsError> {
    match read {
        Err(e) => Err(SysfsError::Io(e)),
        Ok(text) => match list_spec(trim(text)) {
            Ok(cpus) => Ok(cpus),
            Err(e) => Err(SysfsError::Parse(e)),
        },
    }
}

/// How a segment is written: a single index for itself, `left-right` for a
/// range.
pub open spec fn write_group(left: usize, right: usize) -> Seq<char> {
    if left == right {
        decimal(left as nat)
    } else {
        decimal(left as nat) + seq!['-'] + decimal(right as nat)
    }
}

/// How a list of segments is written: the segments in order, with commas
/// between them.
pub open spec fn write_list(bounds: Seq<(usize, usize)>) -> Seq<char>
    decreases bounds.len(),
{
    if bounds.len() == 0 {
        Seq::empty()
    } else if bounds.len() == 1 {
        write_group(bounds[0].0, bounds[0].1)
    } else {
        write_group(bounds[0].0, bounds[0].1) + seq![','] + write_list(bounds.drop_first())
    }
}

/// The CPUs of a list of segments, counted out by hand: every index of the
/// first segment in rising order, then those of the next, and so on.
pub open spec fn enumerate(bounds: Seq<(usize, usize)>) -> Seq<Cpu>
    decreases bounds.len(),
{
    if bounds.len() == 0 {
        Seq::empty()
    } else {
        range(bounds[0].0, bounds[0].1) + enumerate(bounds.drop_first())
    }
}

/// A range holds one CPU for each index from its low to its high bound, in
/// rising order.
pub proof fn lemma_range(left: usize, right: usize)
    requires
        left <= right,
    ensures
        range(left, right).len() == right - left + 1,
        forall|i: int|
            0 <= i <= right - left ==> (#[trigger] range(left, right)[i]).index() == left + i,
{
}

/// A number written in decimal holds no character but digits.
proof fn lemma_decimal_has_no(n: nat, sep: char)
    requires
        !is_digit(sep),
    ensures
        prefix_len(decimal(n), equals(sep)) == decimal(n).len(),
        split(decimal(n), sep) == seq![decimal(n)],
{
    lemma_decimal_round_trip(n);
    lemma_prefix_len_unique(decimal(n), equals(sep), decimal(n).len() as int);
}

/// A single index denotes itself.
pub proof fn lemma_single_index(n: usize)
    ensures
        group_bounds(decimal(n as nat)) == Ok::<(usize, usize), ParseError>((n, n)),
{
    lemma_decimal_has_no(n as nat, '-');
    lemma_decimal_round_trip(n as nat);
}

/// A range written as `left-right` denotes its two bounds, also where they
/// are equal.
pub proof fn lemma_written_range(left: usize, right: usize)
    requires
        left <= right,
    ensures
        group_bounds(decimal(left as nat) + seq!['-'] + decimal(right as nat)) == Ok::<
            (usize, usize),
            ParseError,
        >((left, right)),
{
    let low = decimal(left as nat);
    let high = decimal(right as nat);
    let group = low + seq!['-'] + high;
    lemma_decimal_round_trip(left as nat);
    lemma_decimal_round_trip(right as nat);
    lemma_decimal_has_no(right as nat, '-');
    assert forall|i: int| 0 <= i < low.len() implies !equals('-')(#[trigger] group[i]) by {
        assert(group[i] == low[i]);
    }
    assert(group[low.len() as int] == '-');
    lemma_prefix_len_unique(group, equals('-'), low.len() as int);
    assert(group.take(low.len() as int) =~= low);
    assert(group.skip(low.len() as int + 1) =~= high);
    let parts = split(group, '-');
    assert(parts == seq![low] + seq![high]);
    assert(parts.len() == 2 && parts[0] == low && parts[1] == high);
}

/// A written segment holds no comma, and denotes its bounds.
proof fn lemma_written_group(left: usize, right: usize)
    requires
        left <= right,
    ensures
        group_bounds(write_group(left, right)) == Ok::<(usize, usize), ParseError>((left, right)),
        forall|i: int|
            0 <= i < write_group(left, right).len() ==> (#[trigger] write_group(left, right)[i])
                != ',',
{
    let low = decimal(left as nat);
    let high = decimal(right as nat);
    lemma_decimal_round_trip(left as nat);
    lemma_decimal_round_trip(right as nat);
    if left == right {
        lemma_single_index(left);
    } else {
        lemma_written_range(left, right);
        let group = low + seq!['-'] + high;
        assert forall|i: int| 0 <= i < group.len() implies (#[trigger] group[i]) != ',' by {
            if i < low.len() {
                assert(group[i] == low[i]);
            } else if i > low.len() {
                assert(group[i] == high[i - low.len() - 1]);
            }
        }
    }
}

/// Reading a written list gives the CPUs that its segments count out: in the
/// order of the text, each segment from low to high, with every repetition
/// kept.
pub proof fn lemma_list_denotes_enumeration(bounds: Seq<(usize, usize)>)
    requires
        bounds.len() > 0,
        forall|i: int| 0 <= i < bounds.len() ==> (#[trigger] bounds[i]).0 <= bounds[i].1,
    ensures
        list_spec(write_list(bounds)) == Ok::<Seq<Cpu>, ParseError>(enumerate(bounds)),
    decreases bounds.len(),
{
    let (left, right) = bounds[0];
    let group = write_group(left, right);
    let text = write_list(bounds);
    lemma_written_group(left, right);
    let rest = bounds.drop_first();
    if bounds.len() == 1 {
        lemma_prefix_len_unique(text, equals(','), text.len() as int);
        let groups = split(text, ',');
        assert(groups == seq![text]);
        assert(groups.drop_first() =~= Seq::<Seq<char>>::empty());
        assert(expand(groups.drop_first()) == Ok::<Seq<Cpu>, ParseError>(Seq::empty()));
        assert(enumerate(rest) =~= Seq::<Cpu>::empty());
        assert(range(left, right) + Seq::<Cpu>::empty() =~= enumerate(bounds));
    } else {
        let tail = write_list(rest);
        assert forall|i: int| 0 <= i < rest.len() implies (#[trigger] rest[i]).0 <= rest[i].1 by {
            assert(rest[i] == bounds[i + 1]);
        }
        lemma_list_denotes_enumeration(rest);
        assert forall|i: int| 0 <= i < group.len() implies !equals(',')(#[trigger] text[i]) by {
            assert(text[i] == group[i]);
        }
        assert(text[group.len() as int] == ',');
        lemma_prefix_len_unique(text, equals(','), group.len() as int);
        assert(text.take(group.len() as int) =~= group);
        assert(text.skip(group.len() as int + 1) =~= tail);
        let groups = split(text, ',');
        assert(groups == seq![group] + split(tail, ','));
        assert(groups[0] == group);
        assert(groups.drop_first() =~= split(tail, ','));
    }
}

/// The bounds of one segment of a CPU list.
pub fn parse_group(group: &[char]) -> (r: Result<(usize, usize), ParseError>)
    ensures
        r == group_bounds(group@),
{
    let n = find(group, '-');
    let first = slice_subrange(group, 0, n);
    if n >= group.len() {
        assert(first@ =~= group@);
        return match parse_number(first) {
            None => Err(ParseError::NonNumeric),
            Some(left) => Ok((left, left)),
        };
    }
    let tail = slice_subrange(group, n + 1, group.len());
    let m = find(tail, '-');
    let ghost parts = split(group@, '-');
    assert(parts == seq![first@] + split(tail@, '-'));
    if m < tail.len() {
        assert(split(tail@, '-').len() >= 2) by {
            let after = split(tail@.skip(m as int + 1), '-');
            assert(after.len() >= 1) by {
                reveal_with_fuel(split, 1);
            }
        }
        return Err(ParseError::MalformedRange);
    }
    assert(split(tail@, '-') == seq![tail@]);
    assert(parts.len() == 2 && parts[0] == first@ && parts[1] == tail@);
    match parse_number(first) {
        None => Err(ParseError::NonNumeric),
        Some(left) => match parse_number(tail) {
            None => Err(ParseError::NonNumeric),
            Some(right) => if right < left {
                Err(ParseError::RightLessThanLeft)
            } else {
                Ok((left, right))
            },
        },
    }
}

/// Appends the CPUs from `left` to `right`, both included.
fn push_range(out: &mut Vec<Cpu>, left: usize, right: usize)
    requires
        left <= right,
    ensures
        final(out)@ == old(out)@ + range(left, right),
{
    let mut i: usize = left;
    loop
        invariant_except_break
            left <= i <= right,
            out@ == old(out)@ + range(left, right).take(i - left),
        ensures
            out@ == old(out)@ + range(left, right),
        decreases right - i,
    {
        out.push(Cpu::Index(i));
        assert(old(out)@ + range(left, right).take(i - left + 1) =~= (old(out)@ + range(
            left,
            right,
        ).take(i - left)).push(Cpu::Index(i)));
        if i == right {
            assert(range(left, right).take(right - left + 1) =~= range(left, right));
            break;
        }
        i = i + 1;
    }
}

/// The CPUs that a list such as `0-3,6,8-11` denotes, in the order in which
/// the list names them.
pub fn list_parse(cpu_string: &str) -> (r: Result<Vec<Cpu>, ParseError>)
    ensures
        match list_spec(cpu_string@) {
            Ok(cpus) => r matches Ok(v) && v@ == cpus,
            Err(e) => r matches Err(f) && f == e,
        },
{
    let chars = chars_of(cpu_string);
    parse_groups(chars.as_slice())
}

/// The CPUs that a list denotes.
pub fn parse_groups(list: &[char]) -> (r: Result<Vec<Cpu>, ParseError>)
    ensures
        match list_spec(list@) {
            Ok(cpus) => r matches Ok(v) && v@ == cpus,
            Err(e) => r matches Err(f) && f == e,
        },
{
    let mut rest: &[char] = list;
    let mut out: Vec<Cpu> = Vec::new();
    assert(prepend(out@, expand(split(rest@, ','))) == list_spec(list@)) by {
        match expand(split(rest@, ',')) {
            Ok(cpus) => assert(out@ + cpus =~= cpus),
            Err(_) => {},
        }
    }
    loop
        invariant
            list_spec(list@) == prepend(out@, expand(split(rest@, ','))),
        decreases rest@.len(),
    {
        let n = find(rest, ',');
        let group = slice_subrange(rest, 0, n);
        let ghost groups = split(rest@, ',');
        let ghost before = out@;
        assert(groups[0] == group@) by {
            if n >= rest@.len() {
                assert(group@ =~= rest@);
            }
        }
        match parse_group(group) {
            Err(e) => {
                return Err(e);
            },
            Ok((left, right)) => {
                push_range(&mut out, left, right);
            },
        }
        if n >= rest.len() {
            proof {
                assert(groups.drop_first() =~= Seq::<Seq<char>>::empty());
                assert(expand(groups.drop_first()) == Ok::<Seq<Cpu>, ParseError>(Seq::empty()));
                let (left, right) = group_bounds(group@)->Ok_0;
                assert(before + (range(left, right) + Seq::<Cpu>::empty()) =~= out@);
            }
            return Ok(out);
        }
        let tail = slice_subrange(rest, n + 1, rest.len());
        proof {
            assert(groups.drop_first() =~= split(tail@, ','));
            match expand(split(tail@, ',')) {
                Ok(later) => {
                    let (left, right) = group_bounds(group@)->Ok_0;
                    assert(before + (range(left, right) + later) =~= out@ + later);
                },
                Err(_) => {},
            }
        }
        rest = tail;
    }
}

/// Where sysfs lists the CPUs that the machine can have.
pub fn possible_path() -> (p: &'static str)
    ensures
        p@ == "/sys/devices/system/cpu/possible"@,
{
    "/sys/devices/system/cpu/possible"
}

/// The CPUs that the machine can have, from the outcome of reading the file
/// at `possible_path()`.
pub fn possible(read: Result<String, IoError>) -> (r: Result<Vec<Cpu>, SysfsError>)
    ensures
        match possible_spec(read_text(read)) {
            Ok(cpus) => r matches Ok(v) && v@ == cpus,
            Err(e) => r matches Err(f) && f == e,
        },
{
    match read {
        Err(e) => Err(SysfsError::Io(e)),
        Ok(content) => {
            let chars = chars_of(content.as_str());
            match parse_groups(trimmed(chars.as_slice())) {
                Ok(cpus) => Ok(cpus),
                Err(e) => Err(SysfsError::Parse(e)),
            }
        },
    }
}

} // verus!
