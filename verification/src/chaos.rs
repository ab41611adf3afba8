//! Fault injection for a service: the latency arithmetic and the decisions
//! of each request (pass it on, fail it, or delay it first).
use vstd::prelude::*;

verus! {

/// Nanoseconds in a second.
pub const NANOS_PER_SEC: u32 = 1_000_000_000;

/// Nanoseconds in a millisecond.
pub const NANOS_PER_MILLI: u32 = 1_000_000;

/// The longest latency: `u64::MAX` seconds and 999 999 999 nanoseconds.
pub open spec fn max_latency_nanos() -> nat {
    (u64::MAX as nat) * (NANOS_PER_SEC as nat) + 999_999_999nat
}

/// A length of time, as whole seconds and the nanoseconds below a second;
/// it stands for a `std::time::Duration`.
#[derive(Debug, Clone, Copy, PartialEq, Eq, Structural)]
pub struct Latency {
    secs: u64,
    nanos: u32,
}

impl View for Latency {
    type V = nat;

    /// The length in nanoseconds.
    closed spec fn view(&self) -> nat {
        (self.secs as nat) * (NANOS_PER_SEC as nat) + (self.nanos as nat)
    }
}

proof fn lemma_split_nanos(s: nat, n: nat, t: nat, m: nat)
    by (nonlinear_arith)
    requires
        n < 1_000_000_000,
        m < 1_000_000_000,
        s * 1_000_000_000 + n == t * 1_000_000_000 + m,
    ensures
        s == t,
        n == m,
{
}

proof fn lemma_millis_of(s: nat, n: nat)
    by (nonlinear_arith)
    requires
        n < 1_000_000_000,
    ensures
        (s * 1_000_000_000 + n) / 1_000_000 == s * 1000 + n / 1_000_000,
        (s * 1_000_000_000 + n) / 1_000_000_000 == s,
        (s * 1_000_000_000 + n) % 1_000_000_000 == n,
{
}

impl Latency {
    #[verifier::type_invariant]
    spec fn well_formed(self) -> bool {
        self.nanos < NANOS_PER_SEC
    }

    /// The latency of `secs` seconds and `nanos` nanoseconds.
    pub fn from_parts(secs: u64, nanos: u32) -> (l: Latency)
        requires
            nanos < NANOS_PER_SEC,
        ensures
            l@ == (secs as nat) * (NANOS_PER_SEC as nat) + (nanos as nat),
    {
        Latency { secs, nanos }
    }

    /// The whole seconds of the latency.
    pub fn as_secs(&self) -> (s: u64)
        ensures
            s == self@ / (NANOS_PER_SEC as nat),
    {
        proof {
            use_type_invariant(self);
            lemma_millis_of(self.secs as nat, self.nanos as nat);
        }
        self.secs
    }

    /// The nanoseconds of the latency below a whole second.
    pub fn subsec_nanos(&self) -> (n: u32)
        ensures
            n == self@ % (NANOS_PER_SEC as nat),
    {
        proof {
            use_type_invariant(self);
            lemma_millis_of(self.secs as nat, self.nanos as nat);
        }
        self.nanos
    }

    /// The latency of `ms` milliseconds.
    pub fn from_millis(ms: u64) -> (l: Latency)
        ensures
            l@ == (ms as nat) * (NANOS_PER_MILLI as nat),
    {
        let secs = ms / 1000;
        let nanos = ((ms % 1000) as u32) * NANOS_PER_MILLI;
        proof {
            assert((secs as nat) * 1_000_000_000 + (nanos as nat) == (ms as nat) * 1_000_000)
                by (nonlinear_arith)
                requires
                    secs == ms / 1000,
                    nanos == (ms % 1000) * 1_000_000,
            ;
        }
        Latency { secs, nanos }
    }

    /// The whole milliseconds of the latency.
    pub fn as_millis(&self) -> (ms: u128)
        ensures
            ms == self@ / (NANOS_PER_MILLI as nat),
    {
        proof {
            use_type_invariant(self);
            lemma_millis_of(self.secs as nat, self.nanos as nat);
        }
        (self.secs as u128) * 1000 + ((self.nanos / NANOS_PER_MILLI) as u128)
    }

    /// The latency less `other`, or zero where `other` is the longer.
    pub fn saturating_sub(&self, other: &Latency) -> (d: Latency)
        ensures
            d@ == if self@ >= other@ {
                (self@ - other@) as nat
            } else {
                0nat
            },
    {
        proof {
            use_type_invariant(self);
            use_type_invariant(other);
        }
        if self.secs > other.secs || (self.secs == other.secs && self.nanos >= other.nanos) {
            if self.nanos >= other.nanos {
                Latency { secs: self.secs - other.secs, nanos: self.nanos - other.nanos }
            } else {
                Latency {
                    secs: self.secs - other.secs - 1,
                    nanos: self.nanos + NANOS_PER_SEC - other.nanos,
                }
            }
        } else {
            proof {
                assert(self@ < other@) by (nonlinear_arith)
                    requires
                        self.secs < other.secs || (self.secs == other.secs && self.nanos < other.nanos),
                        self.nanos < 1_000_000_000,
                        self@ == (self.secs as nat) * 1_000_000_000 + (self.nanos as nat),
                        other@ == (other.secs as nat) * 1_000_000_000 + (other.nanos as nat),
                ;
            }
            Latency { secs: 0, nanos: 0 }
        }
    }

    /// The sum of two latencies whose sum is no longer than the longest one.
    pub fn add(&self, other: &Latency) -> (d: Latency)
        requires
            self@ + other@ <= max_latency_nanos(),
        ensures
            d@ == self@ + other@,
    {
        proof {
            use_type_invariant(self);
            use_type_invariant(other);
        }
        let nanos_sum = self.nanos + other.nanos;
        if nanos_sum >= NANOS_PER_SEC {
            proof {
                assert((self.secs as nat) + (other.secs as nat) + 1 <= u64::MAX) by (nonlinear_arith)
                    requires
                        self@ + other@ <= max_latency_nanos(),
                        self.nanos + other.nanos >= 1_000_000_000,
                        self@ == (self.secs as nat) * 1_000_000_000 + (self.nanos as nat),
                        other@ == (other.secs as nat) * 1_000_000_000 + (other.nanos as nat),
                        max_latency_nanos() == (u64::MAX as nat) * 1_000_000_000 + 999_999_999,
                ;
            }
            Latency { secs: self.secs + other.secs + 1, nanos: nanos_sum - NANOS_PER_SEC }
        } else {
            proof {
                assert((self.secs as nat) + (other.secs as nat) <= u64::MAX) by (nonlinear_arith)
                    requires
                        self@ + other@ <= max_latency_nanos(),
                        self@ == (self.secs as nat) * 1_000_000_000 + (self.nanos as nat),
                        other@ == (other.secs as nat) * 1_000_000_000 + (other.nanos as nat),
                        max_latency_nanos() == (u64::MAX as nat) * 1_000_000_000 + 999_999_999,
                ;
            }
            Latency { secs: self.secs + other.secs, nanos: nanos_sum }
        }
    }
}

/// The delay of a request that the fault injector holds back, in
/// nanoseconds: the shortest latency when both bounds are equal; otherwise
/// the shortest latency plus whole milliseconds picked by `jitter`, fewer
/// than the milliseconds between the bounds (at least one), the count cut
/// to 64 bits as a `u64` holds it.
pub open spec fn jittered_delay_nanos(min: nat, max: nat, jitter: u128) -> nat {
    if min == max {
        min
    } else {
        let span: nat = if min <= max {
            (max - min) as nat
        } else {
            0nat
        };
        let span_ms: nat = span / (NANOS_PER_MILLI as nat);
        let modulus: u128 = if span_ms > 1 {
            span_ms as u128
        } else {
            1u128
        };
        let jitter_ms: u64 = (jitter % modulus) as u64;
        min + (jitter_ms as nat) * (NANOS_PER_MILLI as nat)
    }
}

/// Every whole number of milliseconds below the span between the bounds,
/// the span counted in whole milliseconds over its seconds too, is added by
/// some jitter: a jitter `k` below that count (and within a `u64`) adds
/// exactly `k` milliseconds to the shortest latency.
pub proof fn law_every_millisecond_offset_reachable(min: nat, max: nat, k: u128)
    requires
        min < max,
        max <= max_latency_nanos(),
        (k as nat) < (max - min) / (NANOS_PER_MILLI as int),
        k <= u64::MAX,
    ensures
        jittered_delay_nanos(min, max, k) == min + (k as nat) * (NANOS_PER_MILLI as nat),
{
    let span: nat = (max - min) as nat;
    let span_ms: nat = span / 1_000_000;
    assert(span_ms < 0x1_0000_0000_0000_0000_0000_0000_0000_0000) by (nonlinear_arith)
        requires
            span <= max_latency_nanos(),
            span_ms == span / 1_000_000,
            max_latency_nanos() == (u64::MAX as nat) * 1_000_000_000 + 999_999_999,
    ;
    let modulus: u128 = if span_ms > 1 {
        span_ms as u128
    } else {
        1u128
    };
    if span_ms > 1 {
        assert(modulus as nat == span_ms);
    } else {
        assert(k == 0);
    }
    assert(k < modulus);
    vstd::arithmetic::div_mod::lemma_small_mod(k as nat, modulus as nat);
    assert(k % modulus == k);
    assert((k % modulus) as u64 == k);
}

/// The delay lies between the bounds: never below the shortest latency, and
/// below the longest one when that is longer; when the longest is not
/// longer, the delay is the shortest latency.
pub proof fn law_delay_within_bounds(min: nat, max: nat, jitter: u128)
    requires
        min <= max_latency_nanos(),
        max <= max_latency_nanos(),
    ensures
        min <= jittered_delay_nanos(min, max, jitter),
        min < max ==> jittered_delay_nanos(min, max, jitter) < max,
        max <= min ==> jittered_delay_nanos(min, max, jitter) == min,
{
    if min != max {
        let span: nat = if min <= max {
            (max - min) as nat
        } else {
            0nat
        };
        let span_ms: nat = span / 1_000_000;
        let modulus: u128 = if span_ms > 1 {
            span_ms as u128
        } else {
            1u128
        };
        assert(span_ms < 0x1_0000_0000_0000_0000_0000_0000_0000_0000) by (nonlinear_arith)
            requires
                span <= max_latency_nanos(),
                span_ms == span / 1_000_000,
                max_latency_nanos() == (u64::MAX as nat) * 1_000_000_000 + 999_999_999,
        ;
        let j: u128 = jitter % modulus;
        let jitter_ms: u64 = j as u64;
        assert((j as u64) as u128 <= j) by (bit_vector);
        if span_ms > 1 {
            assert((jitter_ms as nat) * 1_000_000 < span) by (nonlinear_arith)
                requires
                    jitter_ms as nat <= j,
                    j < span_ms,
                    span_ms == span / 1_000_000,
            ;
        } else {
            assert(j == 0);
            if min < max {
                assert(span > 0);
            }
        }
    }
}

/// The delay adds whole milliseconds to the shortest latency.
pub proof fn lemma_delay_whole_millis(min: nat, max: nat, jitter: u128)
    ensures
        (jittered_delay_nanos(min, max, jitter) - min) % 1_000_000 == 0,
{
    if min != max {
        let span: nat = if min <= max {
            (max - min) as nat
        } else {
            0nat
        };
        let span_ms: nat = span / 1_000_000;
        let modulus: u128 = if span_ms > 1 {
            span_ms as u128
        } else {
            1u128
        };
        let jitter_ms: u64 = (jitter % modulus) as u64;
        assert(((jitter_ms as nat) * 1_000_000) % 1_000_000 == 0) by (nonlinear_arith);
    }
}

/// `rand::random` for a `u128`: a number drawn at random. Nothing is stated
/// of the value.
#[verifier::external_body]
fn random_u128() -> u128 {
    rand::random::<u128>()
}

/// The delay for a given `jitter`, as `jittered_delay_nanos` says; the sum
/// never overflows.
pub fn jittered_delay(min: &Latency, max: &Latency, jitter: u128) -> (d: Latency)
    ensures
        d@ == jittered_delay_nanos(min@, max@, jitter),
        min@ < max@ && (jitter as nat) < (max@ - min@) / (NANOS_PER_MILLI as int) && jitter
            <= u64::MAX ==> d@ == min@ + (jitter as nat) * (NANOS_PER_MILLI as nat),
        min@ <= d@,
        min@ < max@ ==> d@ < max@,
        max@ <= min@ ==> d@ == min@,
        (d@ - min@) % (NANOS_PER_MILLI as int) == 0,
{
    proof {
        use_type_invariant(min);
        use_type_invariant(max);
        assert(min@ <= max_latency_nanos() && max@ <= max_latency_nanos()) by (nonlinear_arith)
            requires
                min.nanos < 1_000_000_000,
                max.nanos < 1_000_000_000,
                min.secs <= u64::MAX,
                max.secs <= u64::MAX,
                min@ == (min.secs as nat) * 1_000_000_000 + (min.nanos as nat),
                max@ == (max.secs as nat) * 1_000_000_000 + (max.nanos as nat),
                max_latency_nanos() == (u64::MAX as nat) * 1_000_000_000 + 999_999_999,
        ;
        law_delay_within_bounds(min@, max@, jitter);
        if min@ < max@ && (jitter as nat) < (max@ - min@) / 1_000_000 && jitter <= u64::MAX {
            law_every_millisecond_offset_reachable(min@, max@, jitter);
        }
        lemma_delay_whole_millis(min@, max@, jitter);
    }
    if *min == *max {
        *min
    } else {
        proof {
            if min@ == max@ {
                lemma_split_nanos(min.secs as nat, min.nanos as nat, max.secs as nat, max.nanos as nat);
            }
        }
        let span = max.saturating_sub(min);
        let span_ms = span.as_millis();
        let modulus: u128 = if span_ms > 1 {
            span_ms
        } else {
            1
        };
        let jitter_ms = jitter % modulus;
        let step = Latency::from_millis(jitter_ms as u64);
        proof {
            law_delay_within_bounds(min@, max@, jitter);
            assert(max@ <= max_latency_nanos()) by (nonlinear_arith)
                requires
                    max.secs <= u64::MAX,
                    max.nanos < 1_000_000_000,
                    max@ == (max.secs as nat) * 1_000_000_000 + (max.nanos as nat),
                    max_latency_nanos() == (u64::MAX as nat) * 1_000_000_000 + 999_999_999,
            ;
        }
        min.add(&step)
    }
}

/// A delay drawn at random between the bounds: a jitter is drawn only when
/// the bounds differ.
pub fn random_delay(min: &Latency, max: &Latency) -> (d: Latency)
    ensures
        exists|jitter: u128| d@ == jittered_delay_nanos(min@, max@, jitter),
        min@ <= d@,
        min@ < max@ ==> d@ < max@,
        max@ <= min@ ==> d@ == min@,
        (d@ - min@) % (NANOS_PER_MILLI as int) == 0,
{
    if *min == *max {
        assert(min@ == jittered_delay_nanos(min@, max@, 0));
        assert((min@ - min@) % (NANOS_PER_MILLI as int) == 0);
        *min
    } else {
        let jitter = random_u128();
        jittered_delay(min, max, jitter)
    }
}

/// The error of a request that the fault injector fails.
#[derive(Debug, Clone)]
pub struct ChaosError {
    message: String,
}

impl View for ChaosError {
    type V = Seq<char>;

    /// The message of the error.
    closed spec fn view(&self) -> Seq<char> {
        self.message@
    }
}

impl ChaosError {
    /// An error with the given message.
    pub fn new(message: &str) -> (e: ChaosError)
        ensures
            e@ == message@,
    {
        ChaosError { message: message.to_owned() }
    }

    /// The message of the error.
    pub fn to_string(&self) -> (s: String)
        ensures
            s@ == self@,
    {
        self.message.clone()
    }
}

/// What the fault injector has found out about a request so far.
#[derive(Debug, Clone, Copy)]
pub enum ChaosEvent {
    /// The request has come in.
    Request,
    /// The draw against the error probability was made: `true` when it
    /// fell below the probability, so that the request fails.
    FaultDrawn(bool),
    /// The delay has passed.
    Slept,
}

/// What the fault injector does next with a request.
#[derive(Debug)]
pub enum ChaosAction {
    /// Hand the request to the wrapped service and give back its answer.
    Forward,
    /// Draw a number to compare with the error probability.
    DrawFault,
    /// Answer the request with this error, without calling the service.
    Fail(ChaosError),
    /// Wait this long, then go on.
    Sleep(Latency),
}

/// The settings of the fault injector but for the error probability: whether
/// it is on, and the bounds of the delay it adds.
#[derive(Debug, Clone, Copy)]
pub struct ChaosConfig {
    pub enabled: bool,
    pub min_latency: Latency,
    pub max_latency: Latency,
}

impl ChaosConfig {
    /// The settings with these values.
    pub fn new(enabled: bool, min_latency: Latency, max_latency: Latency) -> (c: ChaosConfig)
        ensures
            c.enabled == enabled,
            c.min_latency == min_latency,
            c.max_latency == max_latency,
    {
        ChaosConfig { enabled, min_latency, max_latency }
    }

    /// The next step for a request. When off, the injector hands every
    /// request on at once. When on, it first draws against the error
    /// probability; a request that the draw fails gets the error "injected
    /// chaos failure" and never reaches the service; any other waits a delay
    /// between the bounds and is then handed on.
    pub fn step(&self, event: ChaosEvent) -> (action: ChaosAction)
        ensures
            event is Request && !self.enabled ==> action is Forward,
            event is Request && self.enabled ==> action is DrawFault,
            event matches ChaosEvent::FaultDrawn(true) ==> action matches ChaosAction::Fail(e) && e@
                == "injected chaos failure"@,
            event matches ChaosEvent::FaultDrawn(false) ==> action matches ChaosAction::Sleep(d)
                && exists|jitter: u128|
                d@ == jittered_delay_nanos(self.min_latency@, self.max_latency@, jitter),
            event matches ChaosEvent::FaultDrawn(false) ==> action matches ChaosAction::Sleep(d) && (
            self.min_latency@ <= d@ && (self.min_latency@ < self.max_latency@ ==> d@
                < self.max_latency@) && (self.max_latency@ <= self.min_latency@ ==> d@
                == self.min_latency@) && (d@ - self.min_latency@) % (NANOS_PER_MILLI as int) == 0),
            event is Slept ==> action is Forward,
    {
        match event {
            ChaosEvent::Request => {
                if self.enabled {
                    ChaosAction::DrawFault
                } else {
                    ChaosAction::Forward
                }
            },
            ChaosEvent::FaultDrawn(fault) => {
                if fault {
                    ChaosAction::Fail(ChaosError::new("injected chaos failure"))
                } else {
                    ChaosAction::Sleep(random_delay(&self.min_latency, &self.max_latency))
                }
            },
            ChaosEvent::Slept => ChaosAction::Forward,
        }
    }
}

} // verus!
