//! Classification of benchmark client output lines.
//!
//! Each line is either a `#`-prefixed comment (two recognized throughput
//! summary forms carry a rate), a whitespace-separated data record
//! `endpoint percentile sojournTimeMicros`, or unparseable noise. Data and
//! throughput lines are checked against the overload thresholds, and a whole
//! stream that never produced a data line is itself an overload signal.

use vstd::prelude::*;

verus! {

/// ASCII whitespace that separates fields of a client output line.
pub open spec fn is_space(c: u8) -> bool {
    c == 32 || c == 9 || c == 13 || c == 10
}

/// The whitespace-separated tokens of a line, in order, defined by how the
/// tokenization grows as the line grows one byte at a time at its end.
pub open spec fn spec_tokens(s: Seq<u8>) -> Seq<Seq<u8>>
    decreases s.len(),
{
    if s.len() == 0 {
        Seq::empty()
    } else {
        let rest = spec_tokens(s.drop_last());
        let c = s.last();
        if is_space(c) {
            rest
        } else if s.len() >= 2 && !is_space(s[s.len() - 2]) {
            rest.update(rest.len() - 1, rest.last().push(c))
        } else {
            rest.push(seq![c])
        }
    }
}

/// A line that ends in a non-space byte has at least one token.
proof fn lemma_tokens_nonempty(s: Seq<u8>)
    requires
        s.len() > 0,
        !is_space(s.last()),
    ensures
        spec_tokens(s).len() > 0,
    decreases s.len(),
{
    if s.len() >= 2 && !is_space(s[s.len() - 2]) {
        lemma_tokens_nonempty(s.drop_last());
    }
}

/// Split a line into its whitespace-separated tokens.
pub fn tokenize(line: &[u8]) -> (r: Vec<Vec<u8>>)
    ensures
        r@.len() == spec_tokens(line@).len(),
        forall|k: int| 0 <= k < r@.len() ==> r@[k]@ == spec_tokens(line@)[k],
{
    let mut toks: Vec<Vec<u8>> = Vec::new();
    let mut i: usize = 0;
    while i < line.len()
        invariant
            i <= line.len(),
            toks@.len() == spec_tokens(line@.take(i as int)).len(),
            forall|k: int|
                0 <= k < toks@.len() ==> toks@[k]@ == spec_tokens(line@.take(i as int))[k],
        decreases line.len() - i,
    {
        let c = line[i];
        let ghost pre = line@.take(i as int);
        let ghost post = line@.take(i as int + 1);
        proof {
            assert(post.drop_last() =~= pre);
            assert(post.last() == line@[i as int]);
        }
        if is_space_byte(c) {
            // token boundary: nothing to add
            proof {
                assert(spec_tokens(post) =~= spec_tokens(pre));
            }
        } else if i > 0 && !is_space_byte(line[i - 1]) {
            // continue the current token
            proof {
                assert(pre.len() > 0 && !is_space(pre.last()));
                lemma_tokens_nonempty(pre);
                assert(post.len() >= 2 && !is_space(post[post.len() - 2]));
            }
            let mut lastv = match toks.pop() {
                Some(v) => v,
                None => Vec::new(),
            };
            lastv.push(c);
            toks.push(lastv);
            proof {
                let rest = spec_tokens(pre);
                assert(spec_tokens(post) == rest.update(rest.len() - 1, rest.last().push(c)));
                assert(toks@.len() == spec_tokens(post).len());
                assert forall|k: int| 0 <= k < toks@.len() implies toks@[k]@ == spec_tokens(
                    post,
                )[k] by {
                    if k < toks@.len() - 1 {
                        assert(toks@[k]@ == rest[k]);
                    } else {
                        assert(toks@[k]@ == rest.last().push(c));
                    }
                }
            }
        } else {
            // start a new token
            let mut nv: Vec<u8> = Vec::new();
            nv.push(c);
            toks.push(nv);
            proof {
                let rest = spec_tokens(pre);
                assert(spec_tokens(post) == rest.push(seq![c]));
                assert(nv@ =~= seq![c]);
            }
        }
        i = i + 1;
    }
    proof {
        assert(line@.take(line@.len() as int) =~= line@);
    }
    toks
}

/// Executable test for [`is_space`].
pub fn is_space_byte(c: u8) -> (r: bool)
    ensures
        r == is_space(c),
{
    c == 32 || c == 9 || c == 13 || c == 10
}

/// An ASCII decimal digit.
pub open spec fn is_digit(c: u8) -> bool {
    48 <= c <= 57
}

/// All bytes of the token are decimal digits.
pub open spec fn all_digits(s: Seq<u8>) -> bool {
    forall|i: int| 0 <= i < s.len() ==> is_digit(s[i])
}

/// Numeric value of a decimal digit string.
pub open spec fn digits_val(s: Seq<u8>) -> nat
    decreases s.len(),
{
    if s.len() == 0 {
        0
    } else {
        digits_val(s.drop_last()) * 10 + (if is_digit(s.last()) {
            (s.last() - 48) as nat
        } else {
            0
        })
    }
}

/// The value of a digit string never shrinks as more digits arrive.
proof fn lemma_digits_val_prefix_le(s: Seq<u8>, i: int)
    requires
        0 <= i <= s.len(),
    ensures
        digits_val(s.take(i)) <= digits_val(s),
    decreases s.len() - i,
{
    if i < s.len() {
        assert(s.take(i + 1).drop_last() =~= s.take(i));
        assert(digits_val(s.take(i)) <= digits_val(s.take(i + 1)));
        lemma_digits_val_prefix_le(s, i + 1);
        assert(s.take(s.len() as int) =~= s);
    } else {
        assert(s.take(i) =~= s);
    }
}

/// The token is a non-empty digit string whose value fits in a `u64`.
pub open spec fn parses_u64(t: Seq<u8>) -> bool {
    t.len() > 0 && all_digits(t) && digits_val(t) <= u64::MAX
}

/// Parse a decimal `u64`; `None` exactly on empty input, a non-digit byte,
/// or overflow.
pub fn parse_u64(t: &[u8]) -> (r: Option<u64>)
    ensures
        match r {
            Some(v) => parses_u64(t@) && v == digits_val(t@),
            None => !parses_u64(t@),
        },
{
    if t.len() == 0 {
        return None;
    }
    let mut acc: u64 = 0;
    let mut i: usize = 0;
    while i < t.len()
        invariant
            i <= t.len(),
            acc == digits_val(t@.take(i as int)),
            all_digits(t@.take(i as int)),
        decreases t.len() - i,
    {
        let c = t[i];
        let ghost pre = t@.take(i as int);
        let ghost post = t@.take(i as int + 1);
        proof {
            assert(post.drop_last() =~= pre);
            assert(post.last() == t@[i as int]);
        }
        if c < 48 || c > 57 {
            proof {
                assert(!is_digit(t@[i as int]));
                assert(!all_digits(t@));
            }
            return None;
        }
        let d = c - 48;
        if acc > (u64::MAX - (d as u64)) / 10 {
            // the digits seen so far already exceed what a u64 can hold
            proof {
                let hi = (u64::MAX - d) as int / 10;
                vstd::arithmetic::div_mod::lemma_fundamental_div_mod(u64::MAX - d, 10);
                assert(acc * 10 > hi * 10) by (nonlinear_arith)
                    requires
                        acc > hi,
                ;
                assert(digits_val(post) > u64::MAX);
                lemma_digits_val_prefix_le(t@, i as int + 1);
            }
            return None;
        }
        acc = acc * 10 + (d as u64);
        i = i + 1;
    }
    proof {
        assert(t@.take(t@.len() as int) =~= t@);
    }
    Some(acc)
}

/// Byte-wise equality of two byte slices.
pub fn bytes_eq(a: &[u8], b: &[u8]) -> (r: bool)
    ensures
        r == (a@ == b@),
{
    if a.len() != b.len() {
        return false;
    }
    let mut i: usize = 0;
    while i < a.len()
        invariant
            i <= a.len(),
            a@.len() == b@.len(),
            forall|k: int| 0 <= k < i ==> a@[k] == b@[k],
        decreases a.len() - i,
    {
        if a[i] != b[i] {
            return false;
        }
        i = i + 1;
    }
    proof {
        assert(a@ =~= b@);
    }
    true
}

/// The token `generated` of a throughput summary line.
pub open spec fn lit_generated() -> Seq<u8> {
    seq![103u8, 101u8, 110u8, 101u8, 114u8, 97u8, 116u8, 101u8, 100u8]
}

/// The token `actual` of a throughput summary line.
pub open spec fn lit_actual() -> Seq<u8> {
    seq![97u8, 99u8, 116u8, 117u8, 97u8, 108u8]
}

/// The token `ops/s` of a throughput summary line.
pub open spec fn lit_ops_per_s() -> Seq<u8> {
    seq![111u8, 112u8, 115u8, 47u8, 115u8]
}

fn lit_generated_vec() -> (r: Vec<u8>)
    ensures
        r@ == lit_generated(),
{
    let mut v: Vec<u8> = Vec::new();
    v.push(103);
    v.push(101);
    v.push(110);
    v.push(101);
    v.push(114);
    v.push(97);
    v.push(116);
    v.push(101);
    v.push(100);
    proof {
        assert(v@ =~= lit_generated());
    }
    v
}

fn lit_actual_vec() -> (r: Vec<u8>)
    ensures
        r@ == lit_actual(),
{
    let mut v: Vec<u8> = Vec::new();
    v.push(97);
    v.push(99);
    v.push(116);
    v.push(117);
    v.push(97);
    v.push(108);
    proof {
        assert(v@ =~= lit_actual());
    }
    v
}

fn lit_ops_per_s_vec() -> (r: Vec<u8>)
    ensures
        r@ == lit_ops_per_s(),
{
    let mut v: Vec<u8> = Vec::new();
    v.push(111);
    v.push(112);
    v.push(115);
    v.push(47);
    v.push(115);
    proof {
        assert(v@ =~= lit_ops_per_s());
    }
    v
}

/// What one output line turned out to be.
#[derive(Clone, Copy, PartialEq, Eq, Structural, Debug)]
pub enum LineEvent {
    /// A data record `endpoint percentile sojournTimeMicros`.
    Data { percentile: u64, sojourn_us: u64 },
    /// A `# generated ops/s <rate>` or `# actual ops/s <rate>` summary.
    Throughput { generated: bool, rate: u64 },
    /// Any other `#`-prefixed (or blank) line, recorded verbatim.
    Comment,
    /// A non-comment line that is not a well-formed data record.
    Unparseable,
}

/// Total classification of a raw output line into its event.
pub open spec fn spec_classify(s: Seq<u8>) -> LineEvent {
    let toks = spec_tokens(s);
    if toks.len() == 0 {
        LineEvent::Comment
    } else if toks[0].len() > 0 && toks[0][0] == 35 {
        if toks.len() == 4 && toks[0].len() == 1 && (toks[1] == lit_generated() || toks[1]
            == lit_actual()) && toks[2] == lit_ops_per_s() && parses_u64(toks[3]) {
            LineEvent::Throughput {
                generated: toks[1] == lit_generated(),
                rate: digits_val(toks[3]) as u64,
            }
        } else {
            LineEvent::Comment
        }
    } else if toks.len() == 3 && parses_u64(toks[1]) && parses_u64(toks[2]) {
        LineEvent::Data {
            percentile: digits_val(toks[1]) as u64,
            sojourn_us: digits_val(toks[2]) as u64,
        }
    } else {
        LineEvent::Unparseable
    }
}

/// Classify one raw client output line.
pub fn classify_line(line: &[u8]) -> (r: LineEvent)
    ensures
        r == spec_classify(line@),
{
    let toks = tokenize(line);
    if toks.len() == 0 {
        return LineEvent::Comment;
    }
    if toks[0].len() > 0 && toks[0][0] == 35 {
        if toks.len() == 4 && toks[0].len() == 1 {
            let lg = lit_generated_vec();
            let la = lit_actual_vec();
            let lo = lit_ops_per_s_vec();
            let is_gen = bytes_eq(toks[1].as_slice(), lg.as_slice());
            let is_act = bytes_eq(toks[1].as_slice(), la.as_slice());
            let is_ops = bytes_eq(toks[2].as_slice(), lo.as_slice());
            if (is_gen || is_act) && is_ops {
                match parse_u64(toks[3].as_slice()) {
                    Some(rate) => LineEvent::Throughput { generated: is_gen, rate },
                    None => LineEvent::Comment,
                }
            } else {
                LineEvent::Comment
            }
        } else {
            LineEvent::Comment
        }
    } else if toks.len() == 3 {
        let p = parse_u64(toks[1].as_slice());
        let t = parse_u64(toks[2].as_slice());
        match (p, t) {
            (Some(percentile), Some(sojourn_us)) => LineEvent::Data { percentile, sojourn_us },
            _ => LineEvent::Unparseable,
        }
    } else {
        LineEvent::Unparseable
    }
}

/// A median (50th percentile) sojourn time above this many microseconds marks
/// the system overloaded.
pub const HIGH_LATENCY_SOJOURN_US: u64 = 200_000;

/// The percentile whose sojourn time is held against the latency threshold.
pub const MEDIAN_PERCENTILE: u64 = 50;

/// A data record signals overload when it reports the median sojourn time
/// above the threshold, or a zero sojourn time (a stalled client).
pub open spec fn data_overload(percentile: u64, sojourn_us: u64) -> bool {
    percentile == MEDIAN_PERCENTILE && (sojourn_us > HIGH_LATENCY_SOJOURN_US || sojourn_us == 0)
}

/// A reported rate signals overload when it falls short of the per-client
/// target by more than five percent of that target.
pub open spec fn low_throughput(per_client_target: u64, rate: u64) -> bool {
    20 * (per_client_target - rate) > per_client_target
}

/// Executable test for [`low_throughput`].
pub fn is_low_throughput(per_client_target: u64, rate: u64) -> (r: bool)
    ensures
        r == low_throughput(per_client_target, rate),
{
    proof {
        let t = per_client_target as int;
        let d = t - rate;
        vstd::arithmetic::div_mod::lemma_fundamental_div_mod(t, 20);
        assert(d > t / 20 ==> 20 * d >= 20 * (t / 20) + 20);
        assert(20 * d > 20 * (t / 20) ==> d > t / 20);
    }
    rate < per_client_target - per_client_target / 20
}

/// Why a probe is judged to have overloaded the system.
#[derive(Clone, Copy, PartialEq, Eq, Structural, Debug)]
pub enum OverloadSignal {
    /// Median sojourn time was above the threshold, or zero.
    HighLatency { sojourn_us: u64 },
    /// Achieved rate fell more than five percent short of the per-client
    /// target.
    LowThroughput { rate: u64 },
    /// A client stream ended without a single data line.
    MissingOutput,
    /// A client process exited non-zero.
    ProcessFailure { client: usize },
    /// The priming pass exited non-zero.
    PrimeFailure,
}

/// The overload signal a single line raises, if any.
pub open spec fn line_signal(per_client_target: u64, ev: LineEvent) -> Option<OverloadSignal> {
    match ev {
        LineEvent::Data { percentile, sojourn_us } => if data_overload(percentile, sojourn_us) {
            Some(OverloadSignal::HighLatency { sojourn_us })
        } else {
            None
        },
        LineEvent::Throughput { generated: _, rate } => if low_throughput(
            per_client_target,
            rate,
        ) {
            Some(OverloadSignal::LowThroughput { rate })
        } else {
            None
        },
        _ => None,
    }
}

/// Classification state local to one client's output stream: the signals the
/// stream has raised so far, and whether any data line arrived at all.
pub struct ClientObserver {
    /// The per-client share of the probe's target rate.
    pub per_client_target: u64,
    /// Data lines seen so far (saturating; only zero versus non-zero decides
    /// anything).
    pub data_lines: u64,
    /// All overload signals raised by this stream, in raise order.
    pub signals: Vec<OverloadSignal>,
    /// True once the stream has ended.
    pub finished: bool,
}

impl ClientObserver {
    /// A fresh observer for one client stream.
    pub fn new(per_client_target: u64) -> (r: Self)
        ensures
            r.per_client_target == per_client_target,
            r.data_lines == 0,
            r.signals@ == Seq::<OverloadSignal>::empty(),
            !r.finished,
    {
        ClientObserver { per_client_target, data_lines: 0, signals: Vec::new(), finished: false }
    }

    /// Classify one line of this client's output and record any overload
    /// signal it raises.
    pub fn observe_line(&mut self, line: &[u8])
        requires
            !old(self).finished,
        ensures
            final(self).per_client_target == old(self).per_client_target,
            !final(self).finished,
            ({
                let ev = spec_classify(line@);
                &&& final(self).signals@ == (match line_signal(old(self).per_client_target, ev) {
                    Some(sig) => old(self).signals@.push(sig),
                    None => old(self).signals@,
                })
                &&& (final(self).data_lines == 0 <==> old(self).data_lines == 0 && !(ev is Data))
            }),
    {
        let ev = classify_line(line);
        match ev {
            LineEvent::Data { percentile, sojourn_us } => {
                if self.data_lines < u64::MAX {
                    self.data_lines = self.data_lines + 1;
                }
                if percentile == MEDIAN_PERCENTILE && (sojourn_us > HIGH_LATENCY_SOJOURN_US
                    || sojourn_us == 0) {
                    self.signals.push(OverloadSignal::HighLatency { sojourn_us });
                }
            },
            LineEvent::Throughput { generated: _, rate } => {
                if is_low_throughput(self.per_client_target, rate) {
                    self.signals.push(OverloadSignal::LowThroughput { rate });
                }
            },
            _ => {},
        }
    }

    /// Close the stream: a client that never produced a data line raises
    /// `MissingOutput`, however healthy its summary lines looked.
    pub fn end_of_stream(&mut self)
        requires
            !old(self).finished,
        ensures
            final(self).finished,
            final(self).per_client_target == old(self).per_client_target,
            final(self).data_lines == old(self).data_lines,
            final(self).signals@ == (if old(self).data_lines == 0 {
                old(self).signals@.push(OverloadSignal::MissingOutput)
            } else {
                old(self).signals@
            }),
    {
        if self.data_lines == 0 {
            self.signals.push(OverloadSignal::MissingOutput);
        }
        self.finished = true;
    }
}

} // verus!
