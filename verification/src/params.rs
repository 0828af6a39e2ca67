//! Experiment parameters: one immutable tuple per cell of the experiment
//! matrix.

use vstd::prelude::*;

verus! {

/// Key-access distribution used by the workload generator.
#[derive(Clone, Copy, PartialEq, Eq, Structural, Debug)]
pub enum Distribution {
    /// Zipf-like skew toward popular keys.
    Skewed,
    /// Uniform access over all keys.
    Uniform,
}

/// One immutable cell of the experiment matrix; identifies an experiment and
/// is used to derive its output artifact names.
#[derive(Clone, Copy, PartialEq, Eq, Structural, Debug)]
pub struct ExperimentParameters {
    /// A write is issued once every this many operations.
    pub write_every: u64,
    /// Key-access distribution tag.
    pub distribution: Distribution,
    /// Number of concurrent client processes per probe.
    pub client_count: usize,
    /// Whether the server materializes views partially.
    pub partial: bool,
    /// Memory budget in bytes (zero means unlimited).
    pub memory_limit: u64,
    /// Whether joins are enabled.
    pub join: bool,
    /// Total number of articles loaded while priming.
    pub articles: u64,
}

/// Decimal digits of `n`, most significant first, no leading zeros (a single
/// `0` for zero).
pub open spec fn dec_digits(n: nat) -> Seq<u8>
    decreases n,
{
    if n < 10 {
        seq![(48 + n) as u8]
    } else {
        dec_digits(n / 10).push((48 + n % 10) as u8)
    }
}

/// Append the decimal rendering of `n`.
pub fn push_dec(out: &mut Vec<u8>, n: u64)
    ensures
        final(out)@ == old(out)@ + dec_digits(n as nat),
    decreases n,
{
    if n < 10 {
        out.push(48 + n as u8);
        proof {
            assert(final(out)@ =~= old(out)@ + dec_digits(n as nat));
        }
    } else {
        proof {
            assert(n / 10 < n) by (nonlinear_arith)
                requires
                    n >= 10,
            ;
        }
        push_dec(out, n / 10);
        out.push(48 + (n % 10) as u8);
        proof {
            assert(final(out)@ =~= old(out)@ + dec_digits(n as nat));
        }
    }
}

/// The backend tag of the artifact stem: `partial` or `full`, with `_nj`
/// appended when joins are disabled.
pub open spec fn backend_tag(partial: bool, join: bool) -> Seq<u8> {
    (if partial {
        seq![112u8, 97u8, 114u8, 116u8, 105u8, 97u8, 108u8]
    } else {
        seq![102u8, 117u8, 108u8, 108u8]
    }) + (if join {
        Seq::<u8>::empty()
    } else {
        seq![95u8, 110u8, 106u8]
    })
}

/// The distribution tag of the artifact stem: `skewed` or `uniform`.
pub open spec fn distribution_tag(d: Distribution) -> Seq<u8> {
    match d {
        Distribution::Skewed => seq![115u8, 107u8, 101u8, 119u8, 101u8, 100u8],
        Distribution::Uniform => seq![117u8, 110u8, 105u8, 102u8, 111u8, 114u8, 109u8],
    }
}

/// The filename stem of one probe's artifacts:
/// `{backend}.{articles}a.{target}t.{writeEvery}r.{clientCount}c.{memoryLimit}m.{distribution}`.
pub open spec fn spec_artifact_stem(p: ExperimentParameters, target: u64) -> Seq<u8> {
    backend_tag(p.partial, p.join) + seq![46u8] + dec_digits(p.articles as nat) + seq![97u8, 46u8]
        + dec_digits(target as nat) + seq![116u8, 46u8] + dec_digits(p.write_every as nat) + seq![
        114u8,
        46u8,
    ] + dec_digits(p.client_count as nat) + seq![99u8, 46u8] + dec_digits(p.memory_limit as nat)
        + seq![109u8, 46u8] + distribution_tag(p.distribution)
}

fn push_backend(out: &mut Vec<u8>, partial: bool, join: bool)
    ensures
        final(out)@ == old(out)@ + backend_tag(partial, join),
{
    if partial {
        out.push(112);
        out.push(97);
        out.push(114);
        out.push(116);
        out.push(105);
        out.push(97);
        out.push(108);
    } else {
        out.push(102);
        out.push(117);
        out.push(108);
        out.push(108);
    }
    if !join {
        out.push(95);
        out.push(110);
        out.push(106);
    }
    proof {
        assert(final(out)@ =~= old(out)@ + backend_tag(partial, join));
    }
}

fn push_distribution(out: &mut Vec<u8>, d: Distribution)
    ensures
        final(out)@ == old(out)@ + distribution_tag(d),
{
    match d {
        Distribution::Skewed => {
            out.push(115);
            out.push(107);
            out.push(101);
            out.push(119);
            out.push(101);
            out.push(100);
        },
        Distribution::Uniform => {
            out.push(117);
            out.push(110);
            out.push(105);
            out.push(102);
            out.push(111);
            out.push(114);
            out.push(109);
        },
    }
    proof {
        assert(final(out)@ =~= old(out)@ + distribution_tag(d));
    }
}

/// The merged raw output log of one probe: `{stem}.log`.
pub open spec fn spec_log_name(p: ExperimentParameters, target: u64) -> Seq<u8> {
    spec_artifact_stem(p, target) + seq![46u8, 108u8, 111u8, 103u8]
}

/// One client's histogram copy: `{stem}-client{i}.hist`.
pub open spec fn spec_histogram_name(p: ExperimentParameters, target: u64, client: u64) -> Seq<
    u8,
> {
    spec_artifact_stem(p, target) + seq![45u8, 99u8, 108u8, 105u8, 101u8, 110u8, 116u8]
        + dec_digits(client as nat) + seq![46u8, 104u8, 105u8, 115u8, 116u8]
}

/// The server-side statistics snapshot, written only after a fully clean
/// run: `{stem}-statistics.json`.
pub open spec fn spec_statistics_name(p: ExperimentParameters, target: u64) -> Seq<u8> {
    spec_artifact_stem(p, target) + seq![
        45u8,
        115u8,
        116u8,
        97u8,
        116u8,
        105u8,
        115u8,
        116u8,
        105u8,
        99u8,
        115u8,
        46u8,
        106u8,
        115u8,
        111u8,
        110u8,
    ]
}

/// Render the name of the merged raw output log.
pub fn log_name(p: &ExperimentParameters, target: u64) -> (r: Vec<u8>)
    ensures
        r@ == spec_log_name(*p, target),
{
    let mut out = artifact_stem(p, target);
    out.push(46);
    out.push(108);
    out.push(111);
    out.push(103);
    proof {
        assert(out@ =~= spec_log_name(*p, target));
    }
    out
}

/// Render the name of one client's histogram copy.
pub fn histogram_name(p: &ExperimentParameters, target: u64, client: u64) -> (r: Vec<u8>)
    ensures
        r@ == spec_histogram_name(*p, target, client),
{
    let mut out = artifact_stem(p, target);
    out.push(45);
    out.push(99);
    out.push(108);
    out.push(105);
    out.push(101);
    out.push(110);
    out.push(116);
    push_dec(&mut out, client);
    out.push(46);
    out.push(104);
    out.push(105);
    out.push(115);
    out.push(116);
    proof {
        assert(out@ =~= spec_histogram_name(*p, target, client));
    }
    out
}

/// Render the name of the statistics snapshot.
pub fn statistics_name(p: &ExperimentParameters, target: u64) -> (r: Vec<u8>)
    ensures
        r@ == spec_statistics_name(*p, target),
{
    let mut out = artifact_stem(p, target);
    out.push(45);
    out.push(115);
    out.push(116);
    out.push(97);
    out.push(116);
    out.push(105);
    out.push(115);
    out.push(116);
    out.push(105);
    out.push(99);
    out.push(115);
    out.push(46);
    out.push(106);
    out.push(115);
    out.push(111);
    out.push(110);
    proof {
        assert(out@ =~= spec_statistics_name(*p, target));
    }
    out
}

/// Render the filename stem under which one probe's artifacts are written.
pub fn artifact_stem(p: &ExperimentParameters, target: u64) -> (r: Vec<u8>)
    ensures
        r@ == spec_artifact_stem(*p, target),
{
    let mut out: Vec<u8> = Vec::new();
    push_backend(&mut out, p.partial, p.join);
    out.push(46);
    push_dec(&mut out, p.articles);
    out.push(97);
    out.push(46);
    push_dec(&mut out, target);
    out.push(116);
    out.push(46);
    push_dec(&mut out, p.write_every);
    out.push(114);
    out.push(46);
    push_dec(&mut out, p.client_count as u64);
    out.push(99);
    out.push(46);
    push_dec(&mut out, p.memory_limit);
    out.push(109);
    out.push(46);
    push_distribution(&mut out, p.distribution);
    proof {
        assert(out@ =~= spec_artifact_stem(*p, target));
    }
    out
}

} // verus!
