//! Extraction of process ids from the output of the platform's
//! socket-inspection tools, and the reporting rule of the port reclaimer.
//!
//! Reclaiming a port means discovering every process bound to it and
//! signalling each one. The caller runs the platform tool and hands its
//! raw output here; these parsers pull the process-id column out of it.
//! Tokens are split on ASCII whitespace, as the tools emit.

use vstd::prelude::*;

use crate::ports::ReclaimOutcome;

verus! {

/// ASCII whitespace within a line: space, tab, or carriage return.
pub open spec fn is_ws(b: u8) -> bool {
    b == 32 || b == 9 || b == 13
}

/// An ASCII decimal digit.
pub open spec fn is_digit(b: u8) -> bool {
    48 <= b <= 57
}

/// The value of `t` read as a decimal numeral, most significant digit
/// first.
pub open spec fn dec_value(t: Seq<u8>) -> int
    decreases t.len(),
{
    if t.len() == 0 {
        0
    } else {
        dec_value(t.drop_last()) * 10 + (t.last() - 48)
    }
}

/// Whether `t` is a decimal numeral whose value fits a `u32`.
pub open spec fn parses_u32(t: Seq<u8>) -> bool {
    &&& t.len() > 0
    &&& forall|j: int| 0 <= j < t.len() ==> is_digit(#[trigger] t[j])
    &&& dec_value(t) <= u32::MAX
}

proof fn lemma_dec_value_nonneg(t: Seq<u8>)
    requires
        forall|j: int| 0 <= j < t.len() ==> is_digit(#[trigger] t[j]),
    ensures
        0 <= dec_value(t),
    decreases t.len(),
{
    if t.len() > 0 {
        assert(forall|j: int|
            0 <= j < t.drop_last().len() ==> is_digit(#[trigger] t.drop_last()[j]));
        lemma_dec_value_nonneg(t.drop_last());
    }
}

proof fn lemma_dec_value_step(t: Seq<u8>, i: int)
    requires
        0 <= i < t.len(),
    ensures
        dec_value(t.take(i + 1)) == dec_value(t.take(i)) * 10 + (t[i] - 48),
{
    assert(t.take(i + 1).drop_last() =~= t.take(i));
    assert(t.take(i + 1).last() == t[i]);
}

proof fn lemma_dec_value_mono(t: Seq<u8>, i: int)
    requires
        0 <= i <= t.len(),
        forall|j: int| 0 <= j < t.len() ==> is_digit(#[trigger] t[j]),
    ensures
        dec_value(t.take(i)) <= dec_value(t),
    decreases t.len() - i,
{
    if i == t.len() {
        assert(t.take(i) =~= t);
    } else {
        lemma_dec_value_step(t, i);
        assert(forall|j: int| 0 <= j < t.take(i).len() ==> is_digit(#[trigger] t.take(i)[j]));
        lemma_dec_value_nonneg(t.take(i));
        lemma_dec_value_mono(t, i + 1);
    }
}

/// Reads `t` as a decimal `u32`: the whole slice must be digits and the
/// value must fit.
pub fn parse_u32(t: &[u8]) -> (r: Option<u32>)
    ensures
        match r {
            Some(v) => parses_u32(t@) && v as int == dec_value(t@),
            None => !parses_u32(t@),
        },
{
    if t.len() == 0 {
        return None;
    }
    let mut acc: u32 = 0;
    let mut i: usize = 0;
    while i < t.len()
        invariant
            0 < t@.len(),
            0 <= i <= t@.len(),
            forall|j: int| 0 <= j < i ==> is_digit(#[trigger] t@[j]),
            acc as int == dec_value(t@.take(i as int)),
        decreases t@.len() - i,
    {
        let b = t[i];
        if b < 48 || b > 57 {
            assert(!is_digit(t@[i as int]));
            return None;
        }
        let d: u32 = (b - 48) as u32;
        proof {
            lemma_dec_value_step(t@, i as int);
        }
        if acc > (u32::MAX - d) / 10 {
            proof {
                assert(u32::MAX - d < 10 * ((u32::MAX - d) / 10) + 10);
                assert(acc * 10 + d > u32::MAX);
                if forall|j: int| 0 <= j < t@.len() ==> is_digit(#[trigger] t@[j]) {
                    lemma_dec_value_mono(t@, i as int + 1);
                    assert(dec_value(t@) >= dec_value(t@.take(i as int + 1)));
                    assert(dec_value(t@.take(i as int + 1)) == acc * 10 + d);
                    assert(!parses_u32(t@));
                } else {
                    assert(!parses_u32(t@));
                }
            }
            return None;
        }
        proof {
            assert(10 * ((u32::MAX - d) / 10) <= u32::MAX - d);
            assert(acc * 10 + d <= u32::MAX);
        }
        acc = acc * 10 + d;
        i = i + 1;
    }
    proof {
        assert(t@.take(t@.len() as int) =~= t@);
        lemma_dec_value_nonneg(t@);
    }
    Some(acc)
}

/// The number of bytes before the first line break in `s`.
pub open spec fn line_len(s: Seq<u8>) -> nat
    decreases s.len(),
{
    if s.len() == 0 {
        0
    } else if s[0] == 10 {
        0
    } else {
        1 + line_len(s.drop_first())
    }
}

/// The number of leading non-whitespace bytes of `s`.
pub open spec fn token_len(s: Seq<u8>) -> nat
    decreases s.len(),
{
    if s.len() == 0 {
        0
    } else if is_ws(s[0]) {
        0
    } else {
        1 + token_len(s.drop_first())
    }
}

/// The whitespace-separated tokens of a line.
pub open spec fn tokens(s: Seq<u8>) -> Seq<Seq<u8>>
    decreases s.len(),
    via tokens_decreases
{
    if s.len() == 0 {
        seq![]
    } else if is_ws(s[0]) {
        tokens(s.drop_first())
    } else {
        seq![s.take(token_len(s) as int)] + tokens(s.skip(token_len(s) as int))
    }
}

#[via_fn]
proof fn tokens_decreases(s: Seq<u8>) {
    if s.len() > 0 && !is_ws(s[0]) {
        lemma_token_len(s);
    }
}

proof fn lemma_line_len(s: Seq<u8>)
    ensures
        line_len(s) <= s.len(),
        forall|j: int| 0 <= j < line_len(s) ==> s[j] != 10,
        line_len(s) < s.len() ==> s[line_len(s) as int] == 10,
    decreases s.len(),
{
    if s.len() == 0 || s[0] == 10 {
    } else {
        lemma_line_len(s.drop_first());
        assert forall|j: int| 0 <= j < line_len(s) implies s[j] != 10 by {
            if j > 0 {
                assert(s.drop_first()[j - 1] == s[j]);
            }
        }
        if line_len(s) < s.len() {
            assert(s.drop_first()[line_len(s.drop_first()) as int] == s[line_len(s) as int]);
        }
    }
}

proof fn lemma_token_len(s: Seq<u8>)
    ensures
        token_len(s) <= s.len(),
        forall|j: int| 0 <= j < token_len(s) ==> !is_ws(s[j]),
        token_len(s) < s.len() ==> is_ws(s[token_len(s) as int]),
        s.len() > 0 && !is_ws(s[0]) ==> token_len(s) >= 1,
    decreases s.len(),
{
    if s.len() == 0 || is_ws(s[0]) {
    } else {
        lemma_token_len(s.drop_first());
        assert forall|j: int| 0 <= j < token_len(s) implies !is_ws(s[j]) by {
            if j > 0 {
                assert(s.drop_first()[j - 1] == s[j]);
            }
        }
        if token_len(s) < s.len() {
            assert(s.drop_first()[token_len(s.drop_first()) as int] == s[token_len(s) as int]);
        }
    }
}

/// Whether `b` is ASCII whitespace within a line.
fn is_ws_exec(b: u8) -> (r: bool)
    ensures
        r == is_ws(b),
{
    b == 32 || b == 9 || b == 13
}

/// The number of bytes before the first line break in `s`.
fn scan_line_len(s: &[u8]) -> (n: usize)
    ensures
        n == line_len(s@),
{
    proof {
        lemma_line_len(s@);
    }
    let mut i: usize = 0;
    while i < s.len()
        invariant
            0 <= i <= s@.len(),
            forall|j: int| 0 <= j < i ==> s@[j] != 10,
            line_len(s@) <= s@.len(),
            forall|j: int| 0 <= j < line_len(s@) ==> s@[j] != 10,
            line_len(s@) < s@.len() ==> s@[line_len(s@) as int] == 10,
        decreases s@.len() - i,
    {
        if s[i] == 10 {
            return i;
        }
        i = i + 1;
    }
    i
}

/// The number of leading non-whitespace bytes of `s`.
fn scan_token_len(s: &[u8]) -> (n: usize)
    ensures
        n == token_len(s@),
{
    proof {
        lemma_token_len(s@);
    }
    let mut i: usize = 0;
    while i < s.len()
        invariant
            0 <= i <= s@.len(),
            forall|j: int| 0 <= j < i ==> !is_ws(s@[j]),
            token_len(s@) <= s@.len(),
            forall|j: int| 0 <= j < token_len(s@) ==> !is_ws(s@[j]),
            token_len(s@) < s@.len() ==> is_ws(s@[token_len(s@) as int]),
        decreases s@.len() - i,
    {
        if is_ws_exec(s[i]) {
            return i;
        }
        i = i + 1;
    }
    i
}

/// The whitespace-separated tokens of a line, as owned byte vectors.
fn tokens_exec(s: &[u8]) -> (r: Vec<Vec<u8>>)
    ensures
        r.deep_view() == tokens(s@),
    decreases s@.len(),
{
    if s.len() == 0 {
        let r: Vec<Vec<u8>> = Vec::new();
        proof {
            assert(r.deep_view() =~= tokens(s@));
        }
        return r;
    }
    if is_ws_exec(s[0]) {
        let rest = vstd::slice::slice_subrange(s, 1, s.len());
        proof {
            assert(rest@ =~= s@.drop_first());
        }
        tokens_exec(rest)
    } else {
        proof {
            lemma_token_len(s@);
        }
        let n = scan_token_len(s);
        let tok = vstd::slice::slice_to_vec(vstd::slice::slice_subrange(s, 0, n));
        let rest = vstd::slice::slice_subrange(s, n, s.len());
        proof {
            assert(tok@ =~= s@.take(token_len(s@) as int));
            assert(rest@ =~= s@.skip(token_len(s@) as int));
        }
        let mut rv = tokens_exec(rest);
        let ghost prior = rv@;
        let ghost prior_dv = rv.deep_view();
        let ghost tok_view = tok@;
        rv.insert(0, tok);
        proof {
            assert(rv@ =~= seq![tok] + prior);
            assert(tok.deep_view() =~= tok_view);
            assert forall|i: int| 0 <= i < rv.deep_view().len() implies rv.deep_view()[i]
                == tokens(s@)[i] by {
                if i == 0 {
                    assert(rv@[0] == tok);
                } else {
                    assert(rv@[i] == prior[i - 1]);
                    assert(prior_dv[i - 1] == tokens(rest@)[i - 1]);
                }
            }
            assert(rv.deep_view() =~= tokens(s@));
        }
        rv
    }
}

/// The pids an option contributes to a result: one or none.
pub open spec fn opt_seq(o: Option<u32>) -> Seq<u32> {
    match o {
        Some(v) => seq![v],
        None => seq![],
    }
}

/// What remains of `s` after its first line and the break that ends it.
pub open spec fn rest_after_line(s: Seq<u8>) -> Seq<u8> {
    if line_len(s) < s.len() {
        s.skip(line_len(s) as int + 1)
    } else {
        seq![]
    }
}

/// The pid in one line of `netstat -ano` output: its fifth column, when
/// that is a numeral.
pub open spec fn netstat_line_pid(line: Seq<u8>) -> Option<u32> {
    let t = tokens(line);
    if t.len() >= 5 && parses_u32(t[4]) {
        Some(dec_value(t[4]) as u32)
    } else {
        None
    }
}

/// The pid in one line of `lsof -i` output: its second column, when that
/// is a numeral.
pub open spec fn lsof_line_pid(line: Seq<u8>) -> Option<u32> {
    let t = tokens(line);
    if t.len() >= 2 && parses_u32(t[1]) {
        Some(dec_value(t[1]) as u32)
    } else {
        None
    }
}

/// The pid in a line that holds nothing else: the line trimmed of
/// whitespace must be one numeral.
pub open spec fn plain_line_pid(line: Seq<u8>) -> Option<u32> {
    let t = tokens(line);
    if t.len() == 1 && parses_u32(t[0]) {
        Some(dec_value(t[0]) as u32)
    } else {
        None
    }
}

/// The pids of every `netstat -ano` line of `s`.
pub open spec fn netstat_pids_spec(s: Seq<u8>) -> Seq<u32>
    decreases s.len(),
{
    if s.len() == 0 {
        seq![]
    } else {
        opt_seq(netstat_line_pid(s.take(line_len(s) as int))) + netstat_pids_spec(
            rest_after_line(s),
        )
    }
}

/// The pids of every `lsof -i` line of `s` after the first.
pub open spec fn lsof_tail_pids_spec(s: Seq<u8>) -> Seq<u32>
    decreases s.len(),
{
    if s.len() == 0 {
        seq![]
    } else {
        opt_seq(lsof_line_pid(s.take(line_len(s) as int))) + lsof_tail_pids_spec(
            rest_after_line(s),
        )
    }
}

/// The pids of `lsof -i` output: its header line is dropped, then each
/// line's second column is read.
pub open spec fn lsof_pids_spec(s: Seq<u8>) -> Seq<u32> {
    if s.len() == 0 {
        seq![]
    } else {
        lsof_tail_pids_spec(rest_after_line(s))
    }
}

/// The pids of output that carries one pid per line.
pub open spec fn pid_per_line_spec(s: Seq<u8>) -> Seq<u32>
    decreases s.len(),
{
    if s.len() == 0 {
        seq![]
    } else {
        opt_seq(plain_line_pid(s.take(line_len(s) as int))) + pid_per_line_spec(
            rest_after_line(s),
        )
    }
}

/// The pid a line contributes under the given column rule: the line must
/// have at least `min_tokens` tokens (exactly one, when `min_tokens` is
/// one and `exact` is set), and token number `idx` must be a numeral.
fn line_pid_at(line: &[u8], min_tokens: usize, idx: usize, exact: bool) -> (r: Option<u32>)
    requires
        idx < min_tokens,
    ensures
        ({
            let t = tokens(line@);
            let fits = if exact {
                t.len() == min_tokens
            } else {
                t.len() >= min_tokens
            };
            match r {
                Some(v) => fits && parses_u32(t[idx as int]) && v as int == dec_value(
                    t[idx as int],
                ),
                None => !(fits && parses_u32(t[idx as int])),
            }
        }),
{
    let toks = tokens_exec(line);
    let fits = if exact {
        toks.len() == min_tokens
    } else {
        toks.len() >= min_tokens
    };
    if fits {
        proof {
            assert(toks.deep_view()[idx as int] == toks@[idx as int].deep_view());
            assert(toks@[idx as int].deep_view() =~= toks@[idx as int]@);
        }
        parse_u32(toks[idx].as_slice())
    } else {
        None
    }
}

/// The pids of every `netstat -ano` line: the fifth column of each line
/// that has one, deduplication and the kill left to the caller.
pub fn parse_netstat_pids(out: &[u8]) -> (r: Vec<u32>)
    ensures
        r@ == netstat_pids_spec(out@),
    decreases out@.len(),
{
    if out.len() == 0 {
        let r: Vec<u32> = Vec::new();
        proof {
            assert(r@ =~= netstat_pids_spec(out@));
        }
        return r;
    }
    proof {
        lemma_line_len(out@);
    }
    let n = scan_line_len(out);
    let line = vstd::slice::slice_subrange(out, 0, n);
    proof {
        assert(line@ =~= out@.take(line_len(out@) as int));
    }
    let pid = line_pid_at(line, 5, 4, false);
    let rest: &[u8] = if n < out.len() {
        vstd::slice::slice_subrange(out, n + 1, out.len())
    } else {
        vstd::slice::slice_subrange(out, out.len(), out.len())
    };
    proof {
        assert(rest@ =~= rest_after_line(out@));
    }
    let mut pids = parse_netstat_pids(rest);
    let ghost prior = pids@;
    match pid {
        Some(v) => {
            pids.insert(0, v);
            proof {
                assert(pids@ =~= seq![v] + prior);
            }
        },
        None => {},
    }
    proof {
        assert(pids@ =~= netstat_pids_spec(out@));
    }
    pids
}

/// The pids of every `lsof -i` line after the header: the second column
/// of each line that has one.
fn parse_lsof_tail(out: &[u8]) -> (r: Vec<u32>)
    ensures
        r@ == lsof_tail_pids_spec(out@),
    decreases out@.len(),
{
    if out.len() == 0 {
        let r: Vec<u32> = Vec::new();
        proof {
            assert(r@ =~= lsof_tail_pids_spec(out@));
        }
        return r;
    }
    proof {
        lemma_line_len(out@);
    }
    let n = scan_line_len(out);
    let line = vstd::slice::slice_subrange(out, 0, n);
    proof {
        assert(line@ =~= out@.take(line_len(out@) as int));
    }
    let pid = line_pid_at(line, 2, 1, false);
    let rest: &[u8] = if n < out.len() {
        vstd::slice::slice_subrange(out, n + 1, out.len())
    } else {
        vstd::slice::slice_subrange(out, out.len(), out.len())
    };
    proof {
        assert(rest@ =~= rest_after_line(out@));
    }
    let mut pids = parse_lsof_tail(rest);
    let ghost prior = pids@;
    match pid {
        Some(v) => {
            pids.insert(0, v);
            proof {
                assert(pids@ =~= seq![v] + prior);
            }
        },
        None => {},
    }
    proof {
        assert(pids@ =~= lsof_tail_pids_spec(out@));
    }
    pids
}

/// The pids of `lsof -i` output: the header line is dropped, then the
/// second column of each line is read.
pub fn parse_lsof_pids(out: &[u8]) -> (r: Vec<u32>)
    ensures
        r@ == lsof_pids_spec(out@),
{
    if out.len() == 0 {
        let r: Vec<u32> = Vec::new();
        proof {
            assert(r@ =~= lsof_pids_spec(out@));
        }
        return r;
    }
    proof {
        lemma_line_len(out@);
    }
    let n = scan_line_len(out);
    let rest: &[u8] = if n < out.len() {
        vstd::slice::slice_subrange(out, n + 1, out.len())
    } else {
        vstd::slice::slice_subrange(out, out.len(), out.len())
    };
    proof {
        assert(rest@ =~= rest_after_line(out@));
    }
    parse_lsof_tail(rest)
}

/// The pids of output that carries one pid per line, each line trimmed of
/// surrounding whitespace.
pub fn parse_pid_per_line(out: &[u8]) -> (r: Vec<u32>)
    ensures
        r@ == pid_per_line_spec(out@),
    decreases out@.len(),
{
    if out.len() == 0 {
        let r: Vec<u32> = Vec::new();
        proof {
            assert(r@ =~= pid_per_line_spec(out@));
        }
        return r;
    }
    proof {
        lemma_line_len(out@);
    }
    let n = scan_line_len(out);
    let line = vstd::slice::slice_subrange(out, 0, n);
    proof {
        assert(line@ =~= out@.take(line_len(out@) as int));
    }
    let pid = line_pid_at(line, 1, 0, true);
    let rest: &[u8] = if n < out.len() {
        vstd::slice::slice_subrange(out, n + 1, out.len())
    } else {
        vstd::slice::slice_subrange(out, out.len(), out.len())
    };
    proof {
        assert(rest@ =~= rest_after_line(out@));
    }
    let mut pids = parse_pid_per_line(rest);
    let ghost prior = pids@;
    match pid {
        Some(v) => {
            pids.insert(0, v);
            proof {
                assert(pids@ =~= seq![v] + prior);
            }
        },
        None => {},
    }
    proof {
        assert(pids@ =~= pid_per_line_spec(out@));
    }
    pids
}

/// Removes duplicate pids, keeping each discovered process exactly once,
/// so that no process is signalled twice.
pub fn dedup_pids(v: &Vec<u32>) -> (r: Vec<u32>)
    ensures
        forall|y: u32| r@.contains(y) == v@.contains(y),
        forall|p: int, q: int| 0 <= p < q < r@.len() ==> r@[p] != r@[q],
{
    let mut r: Vec<u32> = Vec::new();
    let mut i: usize = 0;
    while i < v.len()
        invariant
            0 <= i <= v@.len(),
            forall|y: u32| r@.contains(y) == v@.take(i as int).contains(y),
            forall|p: int, q: int| 0 <= p < q < r@.len() ==> r@[p] != r@[q],
        decreases v@.len() - i,
    {
        let x = v[i];
        let mut found = false;
        let mut j: usize = 0;
        while j < r.len()
            invariant
                0 <= j <= r@.len(),
                found == exists|k: int| 0 <= k < j && r@[k] == x,
            decreases r@.len() - j,
        {
            if r[j] == x {
                found = true;
            }
            j = j + 1;
        }
        let ghost prior = r@;
        if !found {
            r.push(x);
        }
        proof {
            assert(v@.take(i as int + 1) =~= v@.take(i as int).push(x));
            assert forall|y: u32| r@.contains(y) == v@.take(i as int + 1).contains(y) by {
                if r@.contains(y) {
                    let k = choose|k: int| 0 <= k < r@.len() && r@[k] == y;
                    if k < prior.len() {
                        assert(prior[k] == y);
                        assert(prior.contains(y));
                        assert(v@.take(i as int).contains(y));
                        let m = choose|m: int|
                            0 <= m < v@.take(i as int).len() && #[trigger] v@.take(i as int)[m]
                                == y;
                        assert(v@.take(i as int + 1)[m] == y);
                    } else {
                        assert(y == x);
                        assert(v@.take(i as int + 1)[i as int] == x);
                    }
                }
                if v@.take(i as int + 1).contains(y) {
                    let m = choose|m: int|
                        0 <= m < v@.take(i as int + 1).len() && #[trigger] v@.take(
                            i as int + 1,
                        )[m] == y;
                    if m < i {
                        assert(v@.take(i as int)[m] == y);
                        assert(v@.take(i as int).contains(y));
                        assert(prior.contains(y));
                        let k = choose|k: int| 0 <= k < prior.len() && prior[k] == y;
                        assert(r@[k] == y);
                    } else {
                        assert(y == x);
                        if found {
                            let k = choose|k: int| 0 <= k < prior.len() && prior[k] == x;
                            assert(r@[k] == x);
                        } else {
                            assert(r@[r@.len() - 1] == x);
                        }
                    }
                    assert(r@.contains(y));
                }
            }
        }
        i = i + 1;
    }
    proof {
        assert(v@.take(i as int) =~= v@);
    }
    r
}

/// The reclaimer's report: at least one signalled process counts as a
/// reclaim; discovering none counts as not found. `discovered` is how many
/// distinct processes the inspection found holding the port, `signaled`
/// how many of them were successfully sent the termination signal. An
/// inspection command that failed to run is reported as
/// [`ReclaimOutcome::Error`] by the caller and never reaches this rule.
pub fn classify_reclaim(discovered: usize, signaled: usize) -> (r: ReclaimOutcome)
    requires
        signaled <= discovered,
    ensures
        r == if signaled > 0 {
            ReclaimOutcome::Reclaimed
        } else {
            ReclaimOutcome::NotFound
        },
{
    if signaled > 0 {
        ReclaimOutcome::Reclaimed
    } else {
        ReclaimOutcome::NotFound
    }
}

} // verus!
