//! Turning a number of seconds into an English phrase such as
//! "2 minutes and 5 seconds".
use std::time::Duration;
use vstd::prelude::*;
use vstd::string::*;

verus! {

/// The character of one decimal digit.
pub open spec fn digit_char(d: nat) -> char {
    ((d % 10) + ('0' as nat)) as char
}

/// The decimal notation of `n`, without leading zeros ("0" for zero).
pub open spec fn decimal(n: nat) -> Seq<char>
    decreases n,
{
    if n < 10 {
        seq![digit_char(n)]
    } else {
        decimal(n / 10).push(digit_char(n % 10))
    }
}

pub open spec fn second_word() -> Seq<char> {
    seq!['s', 'e', 'c', 'o', 'n', 'd']
}

pub open spec fn minute_word() -> Seq<char> {
    seq!['m', 'i', 'n', 'u', 't', 'e']
}

/// `"{n} {unit}"`, with a plural `s` unless `n` is exactly one.
pub open spec fn count_phrase(n: nat, unit: Seq<char>) -> Seq<char> {
    decimal(n) + seq![' '] + unit + if n == 1 {
        Seq::<char>::empty()
    } else {
        seq!['s']
    }
}

/// The phrase for a duration of `secs` whole seconds.
pub open spec fn humanize_spec(secs: nat) -> Seq<char> {
    if secs < 60 {
        count_phrase(secs, second_word())
    } else if secs % 60 == 0 {
        count_phrase(secs / 60, minute_word())
    } else {
        count_phrase(secs / 60, minute_word()) + seq![' ', 'a', 'n', 'd', ' '] + count_phrase(
            secs % 60,
            second_word(),
        )
    }
}

/// In `r`, starting at `start`, stand the count `n` and its unit word, and the
/// character right after the word is a plural `s` exactly when `n` is not one.
pub open spec fn count_clause_at(r: Seq<char>, start: int, n: nat, unit: Seq<char>) -> bool {
    let end = start + decimal(n).len() + 1 + unit.len();
    &&& 0 <= start
    &&& end <= r.len()
    &&& r.subrange(start, end) == decimal(n) + seq![' '] + unit
    &&& ((end < r.len() && r[end] == 's') <==> n != 1)
}

proof fn lemma_count_clause(n: nat, unit: Seq<char>, prefix: Seq<char>, rest: Seq<char>)
    requires
        rest.len() == 0 || rest[0] == ' ',
    ensures
        count_clause_at(prefix + count_phrase(n, unit) + rest, prefix.len() as int, n, unit),
{
    let r = prefix + count_phrase(n, unit) + rest;
    let start = prefix.len() as int;
    let end = start + decimal(n).len() + 1 + unit.len();
    assert(r.subrange(start, end) =~= decimal(n) + seq![' '] + unit);
    if n != 1 {
        assert(r[end] == 's');
    } else if end < r.len() {
        assert(r[end] == rest[0]);
    }
}

/// Every count in a humanized duration is followed by its unit, in the
/// singular when the count is exactly one and in the plural otherwise (zero
/// included): the seconds under a minute, the minutes from a minute on, and the
/// remaining seconds after " and " when the minutes are not whole.
pub proof fn lemma_plural_matches_count(secs: nat)
    ensures
        secs < 60 ==> count_clause_at(humanize_spec(secs), 0, secs, second_word()),
        secs >= 60 ==> count_clause_at(humanize_spec(secs), 0, secs / 60, minute_word()),
        secs >= 60 && secs % 60 != 0 ==> count_clause_at(
            humanize_spec(secs),
            count_phrase(secs / 60, minute_word()).len() + 5int,
            secs % 60,
            second_word(),
        ),
{
    let e = Seq::<char>::empty();
    let and = seq![' ', 'a', 'n', 'd', ' '];
    if secs < 60 {
        lemma_count_clause(secs, second_word(), e, e);
        assert(e + count_phrase(secs, second_word()) + e =~= humanize_spec(secs));
    } else if secs % 60 == 0 {
        lemma_count_clause(secs / 60, minute_word(), e, e);
        assert(e + count_phrase(secs / 60, minute_word()) + e =~= humanize_spec(secs));
    } else {
        let m = count_phrase(secs / 60, minute_word());
        let sp = count_phrase(secs % 60, second_word());
        lemma_count_clause(secs / 60, minute_word(), e, and + sp);
        assert(e + m + (and + sp) =~= humanize_spec(secs));
        lemma_count_clause(secs % 60, second_word(), m + and, e);
        assert((m + and) + sp + e =~= humanize_spec(secs));
    }
}

/// The whole seconds of a duration, as `Duration::as_secs` reports them.
pub uninterp spec fn whole_secs(d: Duration) -> u64;

/// Relies on `Duration::as_secs`: the number of whole seconds in the duration,
/// a function of the duration alone.
#[verifier::external_body]
fn secs_of(d: &Duration) -> (r: u64)
    ensures
        r == whole_secs(*d),
{
    d.as_secs()
}

fn digit_str(d: u64) -> (r: &'static str)
    requires
        d < 10,
    ensures
        r@ == seq![digit_char(d as nat)],
{
    proof {
        reveal_strlit("0");
        reveal_strlit("1");
        reveal_strlit("2");
        reveal_strlit("3");
        reveal_strlit("4");
        reveal_strlit("5");
        reveal_strlit("6");
        reveal_strlit("7");
        reveal_strlit("8");
        reveal_strlit("9");
    }
    match d {
        0 => "0",
        1 => "1",
        2 => "2",
        3 => "3",
        4 => "4",
        5 => "5",
        6 => "6",
        7 => "7",
        8 => "8",
        _ => "9",
    }
}

/// Appends the decimal notation of `n`.
fn push_decimal(out: &mut String, n: u64)
    ensures
        final(out)@ == old(out)@ + decimal(n as nat),
    decreases n,
{
    if n >= 10 {
        push_decimal(out, n / 10);
    }
    out.append(digit_str(n % 10));
    assert(final(out)@ =~= old(out)@ + decimal(n as nat));
}

/// Appends `"{n} {unit}"`, pluralised unless `n` is one.
fn push_count(out: &mut String, n: u64, unit: &str)
    ensures
        final(out)@ == old(out)@ + count_phrase(n as nat, unit@),
{
    push_decimal(out, n);
    out.append(" ");
    out.append(unit);
    if n != 1 {
        out.append("s");
    }
    proof {
        reveal_strlit(" ");
        reveal_strlit("s");
    }
    assert(final(out)@ =~= old(out)@ + count_phrase(n as nat, unit@));
}

/// The phrase for `secs` whole seconds: seconds alone under a minute, whole
/// minutes, or minutes and the remaining seconds.
pub fn humanize_secs(secs: u64) -> (r: String)
    ensures
        r@ == humanize_spec(secs as nat),
{
    proof {
        reveal_strlit("second");
        reveal_strlit("minute");
        reveal_strlit(" and ");
    }
    let mut out = String::new();
    if secs < 60 {
        push_count(&mut out, secs, "second");
    } else {
        let mins = secs / 60;
        let rem = secs % 60;
        push_count(&mut out, mins, "minute");
        if rem > 0 {
            out.append(" and ");
            push_count(&mut out, rem, "second");
        }
    }
    assert(out@ =~= humanize_spec(secs as nat));
    out
}

/// The phrase for a duration, counted in whole seconds.
pub fn humanize_duration(duration: Duration) -> (r: String)
    ensures
        r@ == humanize_spec(whole_secs(duration) as nat),
{
    let secs = secs_of(&duration);
    humanize_secs(secs)
}

} // verus!
