//! Text helpers over the character view of strings: equality, prefixes,
//! substring search and the splitting of a text into lines.

use vstd::prelude::*;
use vstd::std_specs::iter::IteratorSpec;

verus! {

/// Appends `c` to `s`. Trusted: calls `String::push`, which appends the
/// given character to the end of the string.
#[verifier::external_body]
pub(crate) fn push_char(s: &mut String, c: char)
    ensures
        final(s)@ == old(s)@.push(c),
{
    s.push(c)
}

/// Whether two strings hold the same characters.
pub fn same_text(a: &str, b: &str) -> (same: bool)
    ensures
        same == (a@ == b@),
{
    let mut x = a.chars();
    let mut y = b.chars();
    let ghost mut done: int = 0;
    loop
        invariant
            0 <= done <= a@.len(),
            done <= b@.len(),
            x.remaining() == a@.skip(done),
            y.remaining() == b@.skip(done),
            a@.take(done) == b@.take(done),
            x.obeys_prophetic_iter_laws(),
            y.obeys_prophetic_iter_laws(),
            x.decrease() is Some,
        decreases x.decrease()->0,
    {
        let p = x.next();
        let q = y.next();
        match (p, q) {
            (None, None) => {
                assert(a@ =~= a@.take(done));
                assert(b@ =~= b@.take(done));
                return true;
            },
            (Some(c), Some(d)) => {
                if c != d {
                    assert(a@[done] != b@[done]);
                    return false;
                }
                proof {
                    assert(a@.take(done + 1) =~= a@.take(done).push(a@[done]));
                    assert(b@.take(done + 1) =~= b@.take(done).push(b@[done]));
                    assert(a@.skip(done).drop_first() =~= a@.skip(done + 1));
                    assert(b@.skip(done).drop_first() =~= b@.skip(done + 1));
                    done = done + 1;
                }
            },
            _ => {
                assert(a@.len() != b@.len());
                return false;
            },
        }
    }
}

/// Whether `s` begins with `prefix`.
pub fn str_starts_with(s: &str, prefix: &str) -> (found: bool)
    ensures
        found == prefix@.is_prefix_of(s@),
{
    let mut x = s.chars();
    let mut y = prefix.chars();
    let ghost mut done: int = 0;
    loop
        invariant
            0 <= done <= s@.len(),
            done <= prefix@.len(),
            x.remaining() == s@.skip(done),
            y.remaining() == prefix@.skip(done),
            s@.take(done) == prefix@.take(done),
            x.obeys_prophetic_iter_laws(),
            y.obeys_prophetic_iter_laws(),
            y.decrease() is Some,
        decreases y.decrease()->0,
    {
        let q = y.next();
        match q {
            None => {
                assert(prefix@ =~= prefix@.take(done));
                assert(s@.subrange(0, done) =~= s@.take(done));
                return true;
            },
            Some(d) => {
                let p = x.next();
                match p {
                    None => {
                        return false;
                    },
                    Some(c) => {
                        if c != d {
                            assert(prefix@.len() <= s@.len() ==> s@.subrange(
                                0,
                                prefix@.len() as int,
                            )[done] != prefix@[done]);
                            return false;
                        }
                        proof {
                            assert(s@.take(done + 1) =~= s@.take(done).push(s@[done]));
                            assert(prefix@.take(done + 1) =~= prefix@.take(done).push(
                                prefix@[done],
                            ));
                            assert(s@.skip(done).drop_first() =~= s@.skip(done + 1));
                            assert(prefix@.skip(done).drop_first() =~= prefix@.skip(done + 1));
                            done = done + 1;
                        }
                    },
                }
            },
        }
    }
}

/// The first character of `s`, if it has one.
pub fn first_char(s: &str) -> (first: Option<char>)
    ensures
        first == (if s@.len() > 0 {
            Some(s@[0])
        } else {
            None
        }),
{
    let mut it = s.chars();
    it.next()
}

/// The characters of `s`, one element each.
pub fn chars_of(s: &str) -> (chars: Vec<char>)
    ensures
        chars@ == s@,
{
    let mut chars: Vec<char> = Vec::new();
    let walk = s.chars();
    for c in it: walk
        invariant
            it.seq() == s@,
            chars@ == it.seq().take(it.index() as int),
    {
        chars.push(c);
        assert(it.seq().take(it.index() + 1) =~= it.seq().take(it.index() as int).push(c));
    }
    assert(s@.take(s@.len() as int) =~= s@);
    chars
}

/// The modulus of the text hash: a prime below 2^61.
pub const HASH_MODULUS: u64 = 2_305_843_009_213_693_951;

/// The factor of the text hash.
pub const HASH_FACTOR: u64 = 1_000_003;

/// One step of the text hash: the hash so far, times the factor, plus the
/// next unit, all modulo the modulus.
pub open spec fn mixed(hash: u64, unit: u64) -> u64 {
    (((hash % HASH_MODULUS) * HASH_FACTOR + unit % HASH_MODULUS) % (HASH_MODULUS as int)) as u64
}

/// The hash of a text that continues the hash `seed`: one step for each
/// character, in order.
pub open spec fn text_hash(seed: u64, text: Seq<char>) -> u64
    decreases text.len(),
{
    if text.len() == 0 {
        seed
    } else {
        mixed(text_hash(seed, text.drop_last()), text.last() as u32 as u64)
    }
}

/// One step of the text hash.
pub fn mix(hash: u64, unit: u64) -> (next: u64)
    ensures
        next == mixed(hash, unit),
{
    let low: u64 = hash % HASH_MODULUS;
    assert(low * HASH_FACTOR <= HASH_MODULUS * HASH_FACTOR) by (nonlinear_arith)
        requires
            low <= HASH_MODULUS,
    ;
    let wide: u128 = low as u128 * (HASH_FACTOR as u128) + (unit % HASH_MODULUS) as u128;
    (wide % (HASH_MODULUS as u128)) as u64
}

/// The hash of `text` that continues the hash `seed`.
pub fn hash_text(seed: u64, text: &str) -> (hash: u64)
    ensures
        hash == text_hash(seed, text@),
{
    let mut hash = seed;
    let walk = text.chars();
    for c in it: walk
        invariant
            it.seq() == text@,
            hash == text_hash(seed, text@.take(it.index() as int)),
    {
        proof {
            let upto = text@.take(it.index() + 1);
            assert(upto.drop_last() =~= text@.take(it.index() as int));
            assert(upto.last() == c);
        }
        hash = mix(hash, c as u32 as u64);
    }
    assert(text@.take(text@.len() as int) =~= text@);
    hash
}

/// `needle` stands in `hay` starting at index `at`.
pub open spec fn occurs_at(hay: Seq<char>, needle: Seq<char>, at: int) -> bool {
    &&& 0 <= at
    &&& at + needle.len() <= hay.len()
    &&& hay.subrange(at, at + needle.len()) == needle
}

/// `needle` stands somewhere in `hay`. The empty needle stands in every text.
pub open spec fn occurs_in(hay: Seq<char>, needle: Seq<char>) -> bool {
    exists|at: int| occurs_at(hay, needle, at)
}

/// Whether `needle` stands in `hay` at index `at`.
pub fn matches_at(hay: &Vec<char>, needle: &Vec<char>, at: usize) -> (found: bool)
    ensures
        found == occurs_at(hay@, needle@, at as int),
{
    if needle.len() > hay.len() || at > hay.len() - needle.len() {
        return false;
    }
    let mut i: usize = 0;
    while i < needle.len()
        invariant
            i <= needle.len(),
            at + needle.len() <= hay.len(),
            hay@.subrange(at as int, at + i) == needle@.take(i as int),
        decreases needle.len() - i,
    {
        if hay[at + i] != needle[i] {
            assert(hay@.subrange(at as int, at + needle.len())[i as int] == hay@[at + i]);
            return false;
        }
        assert(hay@.subrange(at as int, at + i + 1) =~= hay@.subrange(at as int, at + i).push(
            hay@[at + i],
        ));
        assert(needle@.take(i + 1) =~= needle@.take(i as int).push(needle@[i as int]));
        i += 1;
    }
    assert(needle@.take(needle@.len() as int) =~= needle@);
    true
}

/// Whether `needle` stands somewhere in `hay`.
pub fn contains(hay: &Vec<char>, needle: &Vec<char>) -> (found: bool)
    ensures
        found == occurs_in(hay@, needle@),
{
    if needle.len() > hay.len() {
        assert(forall|at: int| !occurs_at(hay@, needle@, at));
        return false;
    }
    let last: usize = hay.len() - needle.len();
    let mut at: usize = 0;
    loop
        invariant
            last == hay.len() - needle.len(),
            at <= last,
            forall|k: int| 0 <= k < at ==> !occurs_at(hay@, needle@, k),
        decreases last - at,
    {
        if matches_at(hay, needle, at) {
            return true;
        }
        if at == last {
            assert(forall|k: int| !occurs_at(hay@, needle@, k));
            return false;
        }
        at += 1;
    }
}

/// Index of the first line feed of `s` at or after `from`; the length of `s`
/// where no line feed follows.
pub open spec fn line_end(s: Seq<char>, from: int) -> int
    decreases s.len() - from,
{
    if from < 0 || from >= s.len() {
        s.len() as int
    } else if s[from] == '\n' {
        from
    } else {
        line_end(s, from + 1)
    }
}

/// A line without the carriage return that stood before its line feed.
pub open spec fn without_cr(line: Seq<char>) -> Seq<char> {
    if line.len() > 0 && line.last() == '\r' {
        line.drop_last()
    } else {
        line
    }
}

/// The lines of `s` from index `from` on. A line ends at a line feed, or at
/// the end of the text; a carriage return directly before the line feed
/// belongs to the line ending. Text after the last line feed is a line of
/// its own, kept as it stands; an empty rest is no line.
pub open spec fn lines_from(s: Seq<char>, from: int) -> Seq<Seq<char>>
    decreases s.len() - from,
    via lines_from_terminates
{
    if from < 0 || from >= s.len() {
        Seq::empty()
    } else {
        let end = line_end(s, from);
        if end < s.len() {
            seq![without_cr(s.subrange(from, end))] + lines_from(s, end + 1)
        } else {
            seq![s.subrange(from, end)]
        }
    }
}

#[via_fn]
proof fn lines_from_terminates(s: Seq<char>, from: int) {
    if 0 <= from < s.len() {
        line_end_bounds(s, from);
    }
}

/// The lines of a text.
pub open spec fn lines_of(s: Seq<char>) -> Seq<Seq<char>> {
    lines_from(s, 0)
}

/// Where a stretch holds no line feed, the line that starts in it ends where
/// the line after the stretch ends.
pub proof fn line_end_skips(s: Seq<char>, from: int, to: int)
    requires
        0 <= from <= to <= s.len(),
        forall|k: int| from <= k < to ==> s[k] != '\n',
    ensures
        line_end(s, from) == line_end(s, to),
        from <= line_end(s, to) <= s.len(),
        to <= line_end(s, to),
    decreases to - from,
{
    if from < to {
        line_end_skips(s, from + 1, to);
    } else {
        line_end_bounds(s, to);
    }
}

/// A line ends at or after its start and within the text.
pub proof fn line_end_bounds(s: Seq<char>, from: int)
    requires
        0 <= from <= s.len(),
    ensures
        from <= line_end(s, from) <= s.len(),
    decreases s.len() - from,
{
    if from < s.len() && s[from] != '\n' {
        line_end_bounds(s, from + 1);
    }
}

/// No line feed stands before the end of a line.
pub proof fn line_end_is_first(s: Seq<char>, from: int, k: int)
    requires
        0 <= from <= k < line_end(s, from),
    ensures
        k < s.len(),
        s[k] != '\n',
    decreases k - from,
{
    line_end_bounds(s, from);
    if from < k {
        line_end_is_first(s, from + 1, k);
    }
}

/// No line of a text holds a line feed.
pub proof fn lines_hold_no_line_feed(s: Seq<char>, from: int, i: int)
    requires
        0 <= from <= s.len(),
        0 <= i < lines_from(s, from).len(),
    ensures
        !lines_from(s, from)[i].contains('\n'),
    decreases s.len() - from,
{
    let end = line_end(s, from);
    line_end_bounds(s, from);
    if i == 0 {
        let piece = s.subrange(from, end);
        assert forall|k: int| 0 <= k < piece.len() implies piece[k] != '\n' by {
            line_end_is_first(s, from, from + k);
        }
        let line = lines_from(s, from)[0];
        assert forall|k: int| 0 <= k < line.len() implies line[k] != '\n' by {
            assert(line[k] == piece[k]);
        }
    } else {
        let rest = lines_from(s, end + 1);
        assert(lines_from(s, from)[i] == rest[i - 1]);
        lines_hold_no_line_feed(s, end + 1, i - 1);
    }
}

/// Splits a text into its lines.
pub fn split_lines(text: &str) -> (lines: Vec<String>)
    ensures
        lines.deep_view() == lines_of(text@),
{
    let mut lines: Vec<String> = Vec::new();
    let mut current = String::new();
    // A carriage return that was read and not yet added to `current`: it is
    // dropped when a line feed follows, and added otherwise.
    let mut held_cr = false;
    let ghost mut start: int = 0;
    let walk = text.chars();
    for c in it: walk
        invariant
            it.seq() == text@,
            0 <= start <= it.index() <= text@.len(),
            forall|k: int| start <= k < it.index() ==> text@[k] != '\n',
            lines_of(text@) == lines.deep_view() + lines_from(text@, start),
            start < it.index() ==> (held_cr <==> text@[it.index() - 1] == '\r'),
            start == it.index() ==> !held_cr,
            current@ + (if held_cr {
                seq!['\r']
            } else {
                Seq::<char>::empty()
            }) == text@.subrange(start, it.index() as int),
    {
        let ghost at: int = it.index() as int;
        let ghost piece = text@.subrange(start, at);
        if c == '\n' {
            let ghost before = lines.deep_view();
            proof {
                line_end_skips(text@, start, at);
                assert(line_end(text@, start) == at);
                if held_cr {
                    assert(piece.last() == '\r');
                    assert(current@ =~= piece.drop_last());
                } else {
                    assert(current@ =~= piece);
                }
                assert(current@ == without_cr(piece));
            }
            let ghost line = current@;
            lines.push(current);
            current = String::new();
            held_cr = false;
            proof {
                assert(lines.deep_view() =~= before.push(line));
                assert(before + (seq![line] + lines_from(text@, at + 1)) =~= before.push(line)
                    + lines_from(text@, at + 1));
                start = at + 1;
                assert(text@.subrange(start, at + 1) =~= Seq::<char>::empty());
            }
        } else {
            if held_cr {
                push_char(&mut current, '\r');
            }
            if c == '\r' {
                held_cr = true;
            } else {
                push_char(&mut current, c);
                held_cr = false;
            }
            assert(text@.subrange(start, at + 1) =~= text@.subrange(start, at).push(c));
        }
    }
    let ghost rest = text@.subrange(start, text@.len() as int);
    if held_cr {
        push_char(&mut current, '\r');
    }
    assert(current@ =~= rest);
    if !current.as_str().is_empty() {
        let ghost before = lines.deep_view();
        proof {
            line_end_skips(text@, start, text@.len() as int);
        }
        lines.push(current);
        assert(lines.deep_view() =~= before.push(rest));
    } else {
        assert(lines.deep_view() + Seq::<Seq<char>>::empty() =~= lines.deep_view());
    }
    lines
}

} // verus!
