use vstd::prelude::*;
use vstd::utf8::{decode_utf8, valid_utf8};
use crate::config::{same_link, Channel, ChannelKind, RttMode};
use crate::value::{decode_text, text_outcome, Value};

verus! {

/// Which sinks to start for a list of channels, and which sink serves each channel.
pub struct SinkPlan {
    /// For each sink, the index of the first channel that names its link.
    pub sources: Vec<usize>,
    /// For each channel, the index in `sources` of the sink that serves it.
    pub routes: Vec<usize>,
}

/// `sources` and `routes` start one sink per distinct link of `cs`, at the
/// link's first channel and in the order of first appearance, and send each
/// channel to the sink of its own link.
pub open spec fn is_sink_plan(cs: Seq<Channel>, sources: Seq<usize>, routes: Seq<usize>) -> bool {
    &&& forall|k: int| 0 <= k < sources.len() ==> #[trigger] sources[k] < cs.len()
    &&& forall|k1: int, k2: int|
        0 <= k1 < k2 < sources.len() ==> #[trigger] sources[k1] < #[trigger] sources[k2]
    &&& forall|k: int, j: int|
        0 <= k < sources.len() && 0 <= j < sources[k] ==> !same_link(
            #[trigger] cs[j].link,
            cs[#[trigger] sources[k] as int].link,
        )
    &&& routes.len() == cs.len()
    &&& forall|i: int|
        0 <= i < cs.len() ==> #[trigger] routes[i] < sources.len() && same_link(
            cs[sources[routes[i] as int] as int].link,
            cs[i].link,
        )
}

/// The index in `sources` of the sink whose link equals that of channel `i`, if one is planned.
fn find_sink(channels: &Vec<Channel>, sources: &Vec<usize>, i: usize) -> (r: Option<usize>)
    requires
        i < channels.len(),
        forall|k: int| 0 <= k < sources.len() ==> #[trigger] sources[k] < channels.len(),
    ensures
        r matches Some(k) ==> k < sources.len() && same_link(
            channels@[sources@[k as int] as int].link,
            channels@[i as int].link,
        ),
        r is None ==> forall|k: int|
            0 <= k < sources.len() ==> !same_link(
                channels@[#[trigger] sources@[k] as int].link,
                channels@[i as int].link,
            ),
{
    let mut k: usize = 0;
    while k < sources.len()
        invariant
            k <= sources.len(),
            i < channels.len(),
            forall|m: int| 0 <= m < sources.len() ==> #[trigger] sources[m] < channels.len(),
            forall|m: int|
                0 <= m < k ==> !same_link(
                    channels@[#[trigger] sources@[m] as int].link,
                    channels@[i as int].link,
                ),
        decreases sources.len() - k,
    {
        if channels[sources[k]].link == channels[i].link {
            return Some(k);
        }
        k = k + 1;
    }
    None
}

/// Plans one sink per distinct link: channels that name equal links share
/// the sink started for the first of them.
pub fn plan_sinks(channels: &Vec<Channel>) -> (r: SinkPlan)
    ensures
        is_sink_plan(channels@, r.sources@, r.routes@),
{
    let mut sources: Vec<usize> = Vec::new();
    let mut routes: Vec<usize> = Vec::new();
    let mut i: usize = 0;
    while i < channels.len()
        invariant
            i <= channels.len(),
            forall|k: int| 0 <= k < sources.len() ==> #[trigger] sources[k] < i,
            is_sink_plan(channels@.take(i as int), sources@, routes@),
        decreases channels.len() - i,
    {
        let ghost cs = channels@;
        assert forall|k: int| 0 <= k < sources.len() implies #[trigger] sources[k] < channels.len() by {}
        match find_sink(channels, &sources, i) {
            Some(k) => {
                routes.push(k);
            },
            None => {
                assert forall|j: int| 0 <= j < i implies !same_link(
                    #[trigger] cs[j].link,
                    cs[i as int].link,
                ) by {
                    assert(cs.take(i as int)[j] == cs[j]);
                    let k = routes@[j] as int;
                    assert(same_link(cs[sources@[k] as int].link, cs[j].link));
                    assert(!same_link(cs[sources@[k] as int].link, cs[i as int].link));
                }
                routes.push(sources.len());
                sources.push(i);
            },
        }
        proof {
            let next = cs.take(i + 1);
            assert forall|j: int| 0 <= j < i + 1 implies next[j] == cs[j] by {}
            assert forall|j: int| 0 <= j < i implies cs.take(i as int)[j] == cs[j] by {}
        }
        i = i + 1;
    }
    assert(channels@.take(i as int) =~= channels@);
    SinkPlan { sources, routes }
}

/// No two sinks of a plan serve equal links, and channels with equal links
/// are served by the same sink: a link gets exactly one sink.
pub proof fn lemma_one_sink_per_link(
    cs: Seq<Channel>,
    sources: Seq<usize>,
    routes: Seq<usize>,
    i: int,
    j: int,
)
    requires
        is_sink_plan(cs, sources, routes),
        0 <= i < cs.len(),
        0 <= j < cs.len(),
    ensures
        same_link(cs[i].link, cs[j].link) <==> routes[i] == routes[j],
        forall|k1: int, k2: int|
            0 <= k1 < sources.len() && 0 <= k2 < sources.len() && k1 != k2 ==> !same_link(
                cs[#[trigger] sources[k1] as int].link,
                cs[#[trigger] sources[k2] as int].link,
            ),
{
    assert forall|k1: int, k2: int|
        0 <= k1 < sources.len() && 0 <= k2 < sources.len() && k1 != k2 implies !same_link(
            cs[#[trigger] sources[k1] as int].link,
            cs[#[trigger] sources[k2] as int].link,
        ) by {
        if k1 < k2 {
            assert(sources[k1] < sources[k2]);
        } else {
            assert(sources[k2] < sources[k1]);
        }
    }
    let ri = routes[i] as int;
    let rj = routes[j] as int;
    assert(same_link(cs[sources[ri] as int].link, cs[i].link));
    assert(same_link(cs[sources[rj] as int].link, cs[j].link));
}

/// Whether a source of this kind needs the trace-decode table.
pub open spec fn decodes_traces(kind: ChannelKind) -> bool {
    match kind {
        ChannelKind::Rtt { mode, .. } => mode is Defmt || mode is DefmtJson,
        ChannelKind::Itm { .. } => false,
    }
}

/// Whether any source of any channel decodes traces, so that the table must
/// be loaded before telemetry starts.
pub fn needs_trace_table(channels: &Vec<Channel>) -> (r: bool)
    ensures
        r == exists|i: int, j: int|
            0 <= i < channels.len() && 0 <= j < channels@[i].kinds.len() && decodes_traces(
                #[trigger] channels@[i].kinds@[j],
            ),
{
    let mut i: usize = 0;
    while i < channels.len()
        invariant
            i <= channels.len(),
            forall|a: int, b: int|
                0 <= a < i && 0 <= b < channels@[a].kinds.len() ==> !decodes_traces(
                    #[trigger] channels@[a].kinds@[b],
                ),
        decreases channels.len() - i,
    {
        let kinds = channels[i].kinds();
        let mut j: usize = 0;
        while j < kinds.len()
            invariant
                j <= kinds.len(),
                i < channels.len(),
                kinds@ == channels@[i as int].kinds@,
                forall|a: int, b: int|
                    0 <= a < i && 0 <= b < channels@[a].kinds.len() ==> !decodes_traces(
                        #[trigger] channels@[a].kinds@[b],
                    ),
                forall|b: int| 0 <= b < j ==> !decodes_traces(#[trigger] kinds@[b]),
            decreases kinds.len() - j,
        {
            let wanted = match kinds[j] {
                ChannelKind::Rtt { mode, .. } => match mode {
                    RttMode::Defmt | RttMode::DefmtJson => true,
                    _ => false,
                },
                ChannelKind::Itm { .. } => false,
            };
            if wanted {
                assert(decodes_traces(channels@[i as int].kinds@[j as int]));
                return true;
            }
            j = j + 1;
        }
        i = i + 1;
    }
    false
}

/// What `String::from_utf8_lossy` makes of `bytes`.
pub uninterp spec fn lossy_text(bytes: Seq<u8>) -> Seq<char>;

/// Relies on `String::from_utf8_lossy`: its result depends on the bytes
/// alone, and well-formed UTF-8 is decoded unchanged.
#[verifier::external_body]
fn utf8_lossy(bytes: &Vec<u8>) -> (r: String)
    ensures
        r@ == lossy_text(bytes@),
        valid_utf8(bytes@) ==> r@ == decode_utf8(bytes@),
{
    String::from_utf8_lossy(bytes.as_slice()).into_owned()
}

/// The value that a chunk read from an up-channel becomes under `mode`: raw
/// bytes as they are; text with ill-formed sequences replaced; in the JSON
/// mode that text offered to `parse`, and kept as text when `parse`
/// declines it. The trace modes forward nothing here.
pub fn transmit<T, F: Fn(&String) -> Option<T>>(mode: RttMode, data: Vec<u8>, parse: F) -> (r: Option<
    Value<T>,
>)
    requires
        forall|s: &String| parse.requires((s,)),
    ensures
        match mode {
            RttMode::Raw => r == Some(Value::<T>::Bytes(data)),
            RttMode::String { .. } => r matches Some(Value::String(s)) && s@ == lossy_text(
                data@,
            ),
            RttMode::StringJson => r matches Some(v) && exists|t: String|
                t@ == lossy_text(data@) && #[trigger] text_outcome(parse, t, v),
            _ => r is None,
        },
{
    match mode {
        RttMode::Raw => Some(Value::Bytes(data)),
        RttMode::String { .. } => Some(Value::String(utf8_lossy(&data))),
        RttMode::StringJson => {
            let text = utf8_lossy(&data);
            let ghost t = text;
            let v = decode_text(text, parse);
            assert(text_outcome(parse, t, v));
            Some(v)
        },
        _ => None,
    }
}

/// Where the link to the target's telemetry control block stands.
#[derive(Clone, Copy, Debug, PartialEq, Eq, Structural)]
pub enum AttachState {
    NotAttached,
    Attaching,
    Attached,
}

/// The attach retry machine: it attaches again after every failure, with no
/// cap on the number of attempts, and counts attempts and failures.
#[derive(Clone, Copy, Debug)]
pub struct Attacher {
    pub state: AttachState,
    pub attempts: u64,
    pub failures: u64,
}

/// The machine as numbers without bound.
pub struct AttachView {
    pub state: AttachState,
    pub attempts: nat,
    pub failures: nat,
}

impl View for Attacher {
    type V = AttachView;

    open spec fn view(&self) -> AttachView {
        AttachView { state: self.state, attempts: self.attempts as nat, failures: self.failures as nat }
    }
}

/// One attach attempt with outcome `ok`, from a detached machine.
pub open spec fn attach_round(s: AttachView, ok: bool) -> AttachView {
    AttachView {
        state: if ok { AttachState::Attached } else { AttachState::NotAttached },
        attempts: s.attempts + 1,
        failures: if ok { s.failures } else { s.failures + 1 },
    }
}

/// The attempts with outcomes `oks`, one after the other.
pub open spec fn attach_rounds(s: AttachView, oks: Seq<bool>) -> AttachView
    decreases oks.len(),
{
    if oks.len() == 0 {
        s
    } else {
        attach_rounds(attach_round(s, oks[0]), oks.skip(1))
    }
}

impl Attacher {
    /// A machine that has not tried to attach yet.
    pub fn new() -> (r: Attacher)
        ensures
            r@ == (AttachView { state: AttachState::NotAttached, attempts: 0, failures: 0 }),
    {
        Attacher { state: AttachState::NotAttached, attempts: 0, failures: 0 }
    }

    /// Starts the next attempt and returns its number, counting from one.
    pub fn begin_attempt(&mut self) -> (attempt: u64)
        requires
            old(self).state == AttachState::NotAttached,
            old(self).attempts < u64::MAX,
        ensures
            final(self)@ == (AttachView {
                state: AttachState::Attaching,
                attempts: old(self)@.attempts + 1,
                failures: old(self)@.failures,
            }),
            attempt == final(self).attempts,
    {
        self.state = AttachState::Attaching;
        self.attempts = self.attempts + 1;
        self.attempts
    }

    /// Records the outcome of the current attempt. Returns whether the link
    /// is up; after a failure the machine is ready for the next attempt.
    pub fn finish_attempt(&mut self, ok: bool) -> (attached: bool)
        requires
            old(self).state == AttachState::Attaching,
            old(self).failures < u64::MAX,
        ensures
            attached == ok,
            final(self)@ == (AttachView {
                state: if ok { AttachState::Attached } else { AttachState::NotAttached },
                attempts: old(self)@.attempts,
                failures: if ok { old(self)@.failures } else { old(self)@.failures + 1 },
            }),
    {
        if ok {
            self.state = AttachState::Attached;
        } else {
            self.state = AttachState::NotAttached;
            self.failures = self.failures + 1;
        }
        ok
    }

    /// Goes back to detached when the link fails, so that the next attempt follows.
    pub fn link_lost(&mut self)
        requires
            old(self).state == AttachState::Attached,
        ensures
            final(self)@ == (AttachView {
                state: AttachState::NotAttached,
                attempts: old(self)@.attempts,
                failures: old(self)@.failures,
            }),
    {
        self.state = AttachState::NotAttached;
    }
}

/// A begun attempt followed by its outcome is one round of `attach_round`.
pub proof fn lemma_attempt_is_round(before: AttachView, begun: AttachView, after: AttachView, ok: bool)
    requires
        before.state == AttachState::NotAttached,
        begun == (AttachView {
            state: AttachState::Attaching,
            attempts: before.attempts + 1,
            failures: before.failures,
        }),
        after == (AttachView {
            state: if ok { AttachState::Attached } else { AttachState::NotAttached },
            attempts: begun.attempts,
            failures: if ok { begun.failures } else { begun.failures + 1 },
        }),
    ensures
        after == attach_round(before, ok),
{
}

/// Attach failing `k` times and then succeeding leaves the machine attached
/// after `k + 1` attempts with `k` failures counted, with no fatal state on the way.
pub proof fn lemma_attached_after_failures(k: nat)
    ensures
        ({
            let oks = Seq::new(k, |i: int| false).push(true);
            let start = AttachView { state: AttachState::NotAttached, attempts: 0, failures: 0 };
            attach_rounds(start, oks) == (AttachView {
                state: AttachState::Attached,
                attempts: k + 1,
                failures: k,
            })
        }),
{
    lemma_failures_then_success(
        AttachView { state: AttachState::NotAttached, attempts: 0, failures: 0 },
        k,
    );
}

proof fn lemma_failures_then_success(s: AttachView, k: nat)
    ensures
        attach_rounds(s, Seq::new(k, |i: int| false).push(true)) == (AttachView {
            state: AttachState::Attached,
            attempts: s.attempts + k + 1,
            failures: s.failures + k,
        }),
    decreases k,
{
    let oks = Seq::new(k, |i: int| false).push(true);
    assert(oks.len() == k + 1);
    assert(oks[0] == (k == 0));
    if k == 0 {
        assert(oks.skip(1) =~= Seq::<bool>::empty());
        let r = attach_round(s, true);
        assert(attach_rounds(r, oks.skip(1)) == r);
        assert(attach_rounds(s, oks) == attach_rounds(r, oks.skip(1)));
    } else {
        let next = attach_round(s, false);
        assert(oks.skip(1) =~= Seq::new((k - 1) as nat, |i: int| false).push(true));
        lemma_failures_then_success(next, (k - 1) as nat);
        assert(attach_rounds(s, oks) == attach_rounds(next, oks.skip(1)));
    }
}

/// One read of the steady-state loop: a chunk from up-channel `up`, encoded
/// under `mode` and sent to sink `sink`.
#[derive(Clone, Copy, Debug, PartialEq, Eq, Structural)]
pub struct RttPoll {
    pub up: usize,
    pub mode: RttMode,
    pub sink: usize,
}

/// The reads that the RTT sources among `kinds` ask for, in order, all sent to `sink`.
pub open spec fn kind_polls(kinds: Seq<ChannelKind>, sink: usize) -> Seq<RttPoll>
    decreases kinds.len(),
{
    if kinds.len() == 0 {
        seq![]
    } else {
        let rest = kind_polls(kinds.drop_last(), sink);
        match kinds.last() {
            ChannelKind::Rtt { up, mode, .. } => rest.push(RttPoll { up, mode, sink }),
            ChannelKind::Itm { .. } => rest,
        }
    }
}

/// The reads of the first `n` channels, channel by channel, each sent to
/// the sink that `routes` gives it.
pub open spec fn channel_polls(cs: Seq<Channel>, routes: Seq<usize>, n: nat) -> Seq<RttPoll>
    decreases n,
{
    if n == 0 {
        seq![]
    } else {
        channel_polls(cs, routes, (n - 1) as nat) + kind_polls(
            cs[n - 1].kinds@,
            routes[n - 1],
        )
    }
}

/// The reads that one round of the steady-state loop makes: every RTT
/// source of every channel, in configuration order, with the sink of its channel.
pub fn rtt_polls(channels: &Vec<Channel>, plan: &SinkPlan) -> (r: Vec<RttPoll>)
    requires
        is_sink_plan(channels@, plan.sources@, plan.routes@),
    ensures
        r@ == channel_polls(channels@, plan.routes@, channels@.len()),
{
    let mut polls: Vec<RttPoll> = Vec::new();
    let mut i: usize = 0;
    while i < channels.len()
        invariant
            i <= channels.len(),
            plan.routes@.len() == channels@.len(),
            polls@ == channel_polls(channels@, plan.routes@, i as nat),
        decreases channels.len() - i,
    {
        let kinds = channels[i].kinds();
        let sink = plan.routes[i];
        let ghost before = polls@;
        let mut j: usize = 0;
        assert(kinds@.take(0) =~= Seq::<ChannelKind>::empty());
        assert(before + kind_polls(kinds@.take(0), sink) =~= before);
        while j < kinds.len()
            invariant
                j <= kinds.len(),
                polls@ == before + kind_polls(kinds@.take(j as int), sink),
            decreases kinds.len() - j,
        {
            assert(kinds@.take(j + 1).drop_last() =~= kinds@.take(j as int));
            assert(kinds@.take(j + 1).last() == kinds@[j as int]);
            match kinds[j] {
                ChannelKind::Rtt { up, mode, .. } => {
                    polls.push(RttPoll { up, mode, sink });
                    assert(polls@ =~= before + kind_polls(kinds@.take(j + 1), sink));
                },
                ChannelKind::Itm { .. } => {},
            }
            j = j + 1;
        }
        assert(kinds@.take(j as int) =~= kinds@);
        i = i + 1;
    }
    polls
}

} // verus!
