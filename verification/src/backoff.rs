//! Shared backoff after rate limiting, one record per model.
//!
//! When a provider answers "too many requests" for a model, the model's
//! attempt count goes up (to a maximum) and its deadline moves
//! `factor^attempt * 100` milliseconds past the present, unless another
//! request has already moved it into the future. Requests for the model wait
//! until the deadline, plus a little random jitter so that waiters do not all
//! wake at once. A success after the deadline has passed resets the count.
//!
//! Times are milliseconds read from a monotonic clock by the caller.
use vstd::prelude::*;
use vstd::arithmetic::power::pow;

verus! {

/// Highest exponent used for a model's delay; later rate limiting keeps the
/// longest delay.
pub const BACKOFF_MAX_EXPONENT: u32 = 5;

/// Base of the delay: `BACKOFF_FACTOR^attempt * 100` milliseconds.
pub const BACKOFF_FACTOR: u64 = 2;

/// Inclusive lower bound of the random jitter, in milliseconds.
pub const BACKOFF_JITTER_MS_MIN: u64 = 0;

/// Exclusive upper bound of the random jitter, in milliseconds.
pub const BACKOFF_JITTER_MS_MAX: u64 = 200;

/// Clock readings stay below this many milliseconds (about two million
/// years of uptime).
pub const TIME_LIMIT_MS: u64 = 0x0100_0000_0000_0000;

/// The delay in milliseconds before the `attempt`-th retry.
pub open spec fn delay_ms(factor: u64, attempt: u32) -> int {
    pow(factor as int, attempt as nat) * 100
}

/// The attempt count after one more rate limiting, kept at `max`.
pub open spec fn next_attempt(current: u32, max: u32) -> u32 {
    if current < max {
        (current + 1) as u32
    } else {
        current
    }
}

/// Powers of a natural number are natural.
proof fn lemma_pow_nonneg(b: nat, e: nat)
    ensures
        pow(b as int, e) >= 0,
    decreases e,
{
    reveal(pow);
    if e > 0 {
        lemma_pow_nonneg(b, (e - 1) as nat);
        assert(b * pow(b as int, (e - 1) as nat) >= 0) by (nonlinear_arith)
            requires
                pow(b as int, (e - 1) as nat) >= 0,
        ;
    }
}

/// Powers grow with the exponent, for a base other than zero.
proof fn lemma_pow_step_bound(b: nat, i: nat, e: nat)
    requires
        i < e,
    ensures
        pow(b as int, (i + 1) as nat) == b * pow(b as int, i),
        b > 0 ==> pow(b as int, (i + 1) as nat) <= pow(b as int, e),
        b == 0 ==> pow(b as int, (i + 1) as nat) == 0,
{
    reveal(pow);
    assert(pow(b as int, (i + 1) as nat) == b * pow(b as int, i));
    if b > 0 {
        vstd::arithmetic::power::lemma_pow_increases(b, (i + 1) as nat, e);
    }
}

/// `base^exp`, computed by repeated multiplication.
pub fn pow_u64(base: u64, exp: u32) -> (r: u64)
    requires
        pow(base as int, exp as nat) <= u64::MAX,
    ensures
        r == pow(base as int, exp as nat),
{
    let mut r: u64 = 1;
    let mut i: u32 = 0;
    proof {
        reveal(pow);
    }
    while i < exp
        invariant
            i <= exp,
            r == pow(base as int, i as nat),
            pow(base as int, exp as nat) <= u64::MAX,
        decreases exp - i,
    {
        proof {
            lemma_pow_step_bound(base as nat, i as nat, exp as nat);
            lemma_pow_nonneg(base as nat, (i + 1) as nat);
            assert(r * base == base * r) by (nonlinear_arith);
        }
        r = r * base;
        i = i + 1;
    }
    r
}

/// With the service's factor (2) and cap (5), each rate limiting doubles the
/// delay, from 200 ms up to 3200 ms, where it stays: from attempt count `a`
/// (at most the cap) the count goes to `min(a + 1, 5)` and the delay is
/// `2^min(a + 1, 5) * 100` ms.
pub proof fn law_delays_double_up_to_the_cap(a: u32)
    requires
        a <= BACKOFF_MAX_EXPONENT,
    ensures
        next_attempt(a, BACKOFF_MAX_EXPONENT) == if a < 5 {
            a + 1
        } else {
            5int
        },
        delay_ms(BACKOFF_FACTOR, next_attempt(a, BACKOFF_MAX_EXPONENT)) == if a == 0 {
            200int
        } else if a == 1 {
            400int
        } else if a == 2 {
            800int
        } else if a == 3 {
            1600int
        } else {
            3200int
        },
{
    reveal_with_fuel(pow, 6);
}

/// A model's backoff record: until when its requests wait, and how many
/// rate limitings in a row it has seen.
#[derive(Clone, Copy, Debug)]
pub struct BackoffBucketAttempt {
    pub deadline: u64,
    pub current_attempt: u32,
}

/// The record after one more rate limiting at `now`.
pub open spec fn increased(a: BackoffBucketAttempt, factor: u64, max: u32, now: u64) -> BackoffBucketAttempt {
    let n = next_attempt(a.current_attempt, max);
    BackoffBucketAttempt { deadline: (now + delay_ms(factor, n)) as u64, current_attempt: n }
}

impl BackoffBucketAttempt {
    /// A fresh record made at `now`: no attempt yet, nothing to wait for.
    pub fn default_at(now: u64) -> (r: Self)
        ensures
            r.deadline == now,
            r.current_attempt == 0,
    {
        BackoffBucketAttempt { deadline: now, current_attempt: 0 }
    }

    /// Counts one more attempt (up to `max_attempt`) and returns the
    /// deadline its delay gives from `now`.
    pub fn increase_next_deadline(&mut self, factor: u64, max_attempt: u32, now: u64) -> (r: u64)
        requires
            now + delay_ms(factor, next_attempt(old(self).current_attempt, max_attempt)) <= u64::MAX,
        ensures
            final(self).current_attempt == next_attempt(old(self).current_attempt, max_attempt),
            final(self).deadline == old(self).deadline,
            r == now + delay_ms(factor, final(self).current_attempt),
    {
        if self.current_attempt < max_attempt {
            self.current_attempt = self.current_attempt + 1;
        }
        proof {
            lemma_pow_nonneg(factor as nat, self.current_attempt as nat);
        }
        let millis = pow_u64(factor, self.current_attempt) * 100;
        now + millis
    }

    /// Forgets the attempts made so far.
    pub fn clear_backoff(&mut self)
        ensures
            final(self).current_attempt == 0,
            final(self).deadline == old(self).deadline,
    {
        self.current_attempt = 0;
    }
}

/// The generator of jitter, `fastrand::Rng`.
#[verifier::external_type_specification]
#[verifier::external_body]
pub struct ExRng(fastrand::Rng);

/// A generator seeded by `fastrand::Rng::new`; nothing is claimed of it.
#[verifier::external_body]
fn new_rng() -> fastrand::Rng {
    fastrand::Rng::new()
}

/// A number drawn by `fastrand::Rng::u64` from `low..high`, which fastrand
/// documents as lying in that range (it panics on an empty range, which the
/// `requires` excludes). Which number comes is chance.
#[verifier::external_body]
fn random_in(rng: &mut fastrand::Rng, low: u64, high: u64) -> (r: u64)
    requires
        low < high,
    ensures
        low <= r < high,
    no_unwind
{
    rng.u64(low..high)
}

/// One model's record in a bucket.
pub struct BackoffEntry {
    pub model: String,
    pub attempt: BackoffBucketAttempt,
}

/// No model has two records.
pub open spec fn entries_distinct(s: Seq<BackoffEntry>) -> bool {
    forall|i: int, j: int| 0 <= i < s.len() && 0 <= j < s.len() && i != j ==> s[i].model@ != s[j].model@
}

/// `model` has a record at some index of `s`.
pub open spec fn has_entry(s: Seq<BackoffEntry>, model: Seq<char>) -> bool {
    exists|i: int| 0 <= i < s.len() && #[trigger] s[i].model@ == model
}

/// The records as a map from model name.
pub open spec fn entries_map(s: Seq<BackoffEntry>) -> Map<Seq<char>, BackoffBucketAttempt> {
    Map::new(
        |k: Seq<char>| has_entry(s, k),
        |k: Seq<char>| s[choose|i: int| 0 <= i < s.len() && #[trigger] s[i].model@ == k].attempt,
    )
}

/// The abstract state of a bucket: its settings and each model's record.
pub struct BucketView {
    pub max_exponent: u32,
    pub factor: u64,
    pub jitter_min: u64,
    pub jitter_max: u64,
    pub backoffs: Map<Seq<char>, BackoffBucketAttempt>,
}

/// The records after a rate limiting of `model` at `now`; a record made for
/// it is stamped `inserted_at`. Only a deadline that has passed moves.
pub open spec fn increase_spec(
    b: Map<Seq<char>, BackoffBucketAttempt>,
    model: Seq<char>,
    factor: u64,
    max: u32,
    inserted_at: u64,
    now: u64,
) -> Map<Seq<char>, BackoffBucketAttempt> {
    let a = if b.contains_key(model) {
        b[model]
    } else {
        BackoffBucketAttempt { deadline: inserted_at, current_attempt: 0 }
    };
    if a.deadline < now {
        b.insert(model, increased(a, factor, max, now))
    } else {
        b.insert(model, a)
    }
}

/// The records after a success for `model` at `now`: its count is reset
/// once its deadline has passed.
pub open spec fn clear_spec(b: Map<Seq<char>, BackoffBucketAttempt>, model: Seq<char>, now: u64) -> Map<
    Seq<char>,
    BackoffBucketAttempt,
> {
    if b.contains_key(model) && b[model].deadline < now {
        b.insert(model, BackoffBucketAttempt { current_attempt: 0, ..b[model] })
    } else {
        b
    }
}

/// The deadline a request for `model` at `now` waits for, if any.
pub open spec fn wait_deadline_spec(b: Map<Seq<char>, BackoffBucketAttempt>, model: Seq<char>, now: u64) -> Option<
    u64,
> {
    if b.contains_key(model) && !(b[model].deadline < now) {
        Some(b[model].deadline)
    } else {
        None
    }
}

/// A record found at an index is the map's value for its model.
proof fn lemma_map_at(s: Seq<BackoffEntry>, i: int)
    requires
        entries_distinct(s),
        0 <= i < s.len(),
    ensures
        entries_map(s).contains_key(s[i].model@),
        entries_map(s)[s[i].model@] == s[i].attempt,
{
    let k = s[i].model@;
    assert(has_entry(s, k));
    let j = choose|j: int| 0 <= j < s.len() && #[trigger] s[j].model@ == k;
    assert(j == i);
}

/// Replacing a record by one for the same model updates the map.
proof fn lemma_map_update(s: Seq<BackoffEntry>, i: int, e: BackoffEntry)
    requires
        entries_distinct(s),
        0 <= i < s.len(),
        s[i].model@ == e.model@,
    ensures
        entries_distinct(s.update(i, e)),
        entries_map(s.update(i, e)) == entries_map(s).insert(e.model@, e.attempt),
{
    let t = s.update(i, e);
    assert forall|a: int| 0 <= a < t.len() implies #[trigger] t[a].model@ == s[a].model@ by {}
    assert forall|k: Seq<char>| has_entry(t, k) == has_entry(s, k) by {
        if has_entry(t, k) {
            let a = choose|a: int| 0 <= a < t.len() && #[trigger] t[a].model@ == k;
            assert(s[a].model@ == k);
        }
        if has_entry(s, k) {
            let a = choose|a: int| 0 <= a < s.len() && #[trigger] s[a].model@ == k;
            assert(t[a].model@ == k);
        }
    }
    lemma_map_at(t, i);
    assert forall|k: Seq<char>| #[trigger] entries_map(t).contains_key(k) && k != e.model@ implies entries_map(
        t,
    )[k] == entries_map(s)[k] by {
        let a = choose|a: int| 0 <= a < t.len() && #[trigger] t[a].model@ == k;
        assert(a != i);
        lemma_map_at(t, a);
        lemma_map_at(s, a);
    }
    assert(entries_map(t) =~= entries_map(s).insert(e.model@, e.attempt));
}

/// Adding a record for a model without one extends the map.
proof fn lemma_map_push(s: Seq<BackoffEntry>, e: BackoffEntry)
    requires
        entries_distinct(s),
        !has_entry(s, e.model@),
    ensures
        entries_distinct(s.push(e)),
        entries_map(s.push(e)) == entries_map(s).insert(e.model@, e.attempt),
{
    let t = s.push(e);
    assert forall|a: int| 0 <= a < s.len() implies #[trigger] t[a] == s[a] by {}
    assert forall|a: int, b: int| 0 <= a < t.len() && 0 <= b < t.len() && a != b implies t[a].model@
        != t[b].model@ by {
        if a == s.len() {
            assert(t[b].model@ == s[b].model@);
        } else if b == s.len() {
            assert(t[a].model@ == s[a].model@);
        }
    }
    assert forall|k: Seq<char>| has_entry(t, k) == (has_entry(s, k) || k == e.model@) by {
        if has_entry(t, k) {
            let a = choose|a: int| 0 <= a < t.len() && #[trigger] t[a].model@ == k;
            if a < s.len() {
                assert(s[a].model@ == k);
            }
        }
        if has_entry(s, k) {
            let a = choose|a: int| 0 <= a < s.len() && #[trigger] s[a].model@ == k;
            assert(t[a].model@ == k);
        }
        if k == e.model@ {
            assert(t[s.len() as int].model@ == k);
        }
    }
    lemma_map_at(t, s.len() as int);
    assert forall|k: Seq<char>| #[trigger] entries_map(t).contains_key(k) && k != e.model@ implies entries_map(
        t,
    )[k] == entries_map(s)[k] by {
        let a = choose|a: int| 0 <= a < t.len() && #[trigger] t[a].model@ == k;
        assert(a < s.len());
        lemma_map_at(t, a);
        lemma_map_at(s, a);
    }
    assert(entries_map(t) =~= entries_map(s).insert(e.model@, e.attempt));
}

/// A delay never exceeds the delay at the maximum exponent.
proof fn lemma_delay_bounded(factor: u64, n: u32, max: u32)
    requires
        factor >= 1,
        n <= max,
    ensures
        100 <= delay_ms(factor, n) <= delay_ms(factor, max),
{
    vstd::arithmetic::power::lemma_pow_increases(factor as nat, n as nat, max as nat);
    vstd::arithmetic::power::lemma_pow_positive(factor as int, n as nat);
}

/// A rate limiting at `now` of a model whose deadline has passed (or that
/// had no record, made before `now`) counts one more attempt, never past the
/// maximum, and requests for the model made at `now` then wait exactly until
/// `now` plus the delay for that count.
pub proof fn law_rate_limit_sets_delay(v: BucketView, model: Seq<char>, inserted_at: u64, now: u64)
    requires
        bucket_wf(v),
        inserted_at <= now,
        now < TIME_LIMIT_MS,
        if v.backoffs.contains_key(model) {
            v.backoffs[model].deadline < now
        } else {
            inserted_at < now
        },
    ensures
        ({
            let before = if v.backoffs.contains_key(model) {
                v.backoffs[model].current_attempt
            } else {
                0
            };
            let after = increase_spec(v.backoffs, model, v.factor, v.max_exponent, inserted_at, now);
            &&& after[model].current_attempt == next_attempt(before, v.max_exponent)
            &&& after[model].current_attempt <= v.max_exponent
            &&& wait_deadline_spec(after, model, now) == Some(
                (now + delay_ms(v.factor, after[model].current_attempt)) as u64,
            )
            &&& now + delay_ms(v.factor, after[model].current_attempt) <= u64::MAX
        }),
{
    let before = if v.backoffs.contains_key(model) {
        v.backoffs[model].current_attempt
    } else {
        0
    };
    lemma_delay_bounded(v.factor, next_attempt(before, v.max_exponent), v.max_exponent);
}

/// Rate limitings of a model reported at the same moment count once: the
/// first moves the deadline past that moment, and the others leave it.
pub proof fn law_rate_limit_counted_once(v: BucketView, model: Seq<char>, inserted_at: u64, now: u64)
    requires
        bucket_wf(v),
        inserted_at <= now,
        now < TIME_LIMIT_MS,
    ensures
        ({
            let once = increase_spec(v.backoffs, model, v.factor, v.max_exponent, inserted_at, now);
            increase_spec(once, model, v.factor, v.max_exponent, inserted_at, now) == once
        }),
{
    let once = increase_spec(v.backoffs, model, v.factor, v.max_exponent, inserted_at, now);
    let before = if v.backoffs.contains_key(model) {
        v.backoffs[model].current_attempt
    } else {
        0
    };
    lemma_delay_bounded(v.factor, next_attempt(before, v.max_exponent), v.max_exponent);
    assert(!(once[model].deadline < now));
    assert(once.insert(model, once[model]) =~= once);
}

/// A success after a model's deadline has passed resets its count: nothing
/// is waited for, and the next rate limiting starts again from the first
/// delay.
pub proof fn law_success_resets(v: BucketView, model: Seq<char>, now: u64, later: u64)
    requires
        bucket_wf(v),
        v.backoffs.contains_key(model),
        v.backoffs[model].deadline < now,
        now <= later,
        later < TIME_LIMIT_MS,
    ensures
        ({
            let cleared = clear_spec(v.backoffs, model, now);
            let again = increase_spec(cleared, model, v.factor, v.max_exponent, later, later);
            &&& cleared[model].current_attempt == 0
            &&& wait_deadline_spec(cleared, model, now) is None
            &&& again[model].current_attempt == next_attempt(0, v.max_exponent)
            &&& again[model].deadline == later + delay_ms(v.factor, next_attempt(0, v.max_exponent))
        }),
{
    lemma_delay_bounded(v.factor, next_attempt(0, v.max_exponent), v.max_exponent);
}

/// A success while a model's deadline is still ahead, or for a model
/// without a record, changes nothing.
pub proof fn law_success_before_deadline_keeps_state(v: BucketView, model: Seq<char>, now: u64)
    requires
        !(v.backoffs.contains_key(model) && v.backoffs[model].deadline < now),
    ensures
        clear_spec(v.backoffs, model, now) == v.backoffs,
{
}

/// Per-model backoff state shared by a provider's requests.
pub struct ExponentialBackoffBucket {
    max_exponent: u32,
    factor: u64,
    rng: fastrand::Rng,
    jitter_min: u64,
    jitter_max: u64,
    backoffs: Vec<BackoffEntry>,
}

impl View for ExponentialBackoffBucket {
    type V = BucketView;

    closed spec fn view(&self) -> BucketView {
        BucketView {
            max_exponent: self.max_exponent,
            factor: self.factor,
            jitter_min: self.jitter_min,
            jitter_max: self.jitter_max,
            backoffs: entries_map(self.backoffs@),
        }
    }
}

/// A bucket's settings keep every delay and jitter small, no model has two
/// records, no count passes the maximum and no deadline lies beyond the
/// clock's range plus the longest delay.
pub open spec fn bucket_wf(v: BucketView) -> bool {
    &&& v.jitter_min < v.jitter_max <= 0x1_0000_0000
    &&& v.factor >= 1
    &&& delay_ms(v.factor, v.max_exponent) <= 0x1_0000_0000
    &&& forall|m: Seq<char>| #[trigger] v.backoffs.contains_key(m) ==> v.backoffs[m].current_attempt <= v.max_exponent
        && v.backoffs[m].deadline <= TIME_LIMIT_MS + 0x1_0000_0000
}

impl ExponentialBackoffBucket {
    /// The bucket is well formed and its records are those of its view.
    pub closed spec fn wf(&self) -> bool {
        &&& entries_distinct(self.backoffs@)
        &&& bucket_wf(self@)
    }

    /// Every bucket is well formed.
    #[verifier::type_invariant]
    spec fn inv(self) -> bool {
        self.wf()
    }

    /// A bucket with the standard settings and no records.
    pub fn new() -> (r: Self)
        ensures
            r@.max_exponent == BACKOFF_MAX_EXPONENT,
            r@.factor == BACKOFF_FACTOR,
            r@.jitter_min == BACKOFF_JITTER_MS_MIN,
            r@.jitter_max == BACKOFF_JITTER_MS_MAX,
            r@.backoffs == Map::<Seq<char>, BackoffBucketAttempt>::empty(),
    {
        let rng = new_rng();
        let backoffs: Vec<BackoffEntry> = Vec::new();
        proof {
            assert(pow(2, 5) == 32) by {
                reveal_with_fuel(pow, 6);
            }
            assert(entries_map(backoffs@) =~= Map::<Seq<char>, BackoffBucketAttempt>::empty());
        }
        ExponentialBackoffBucket {
            max_exponent: BACKOFF_MAX_EXPONENT,
            factor: BACKOFF_FACTOR,
            rng,
            jitter_min: BACKOFF_JITTER_MS_MIN,
            jitter_max: BACKOFF_JITTER_MS_MAX,
            backoffs,
        }
    }

    /// Records a rate limiting of `model_name` at `now`. A model without a
    /// record gets one stamped `inserted_at` (the clock read when it was
    /// made). Only if the model's deadline has passed, so that no other
    /// request moved it into the future already, does its count go up (to
    /// the maximum) and its deadline move `factor^count * 100` ms past `now`.
    pub fn increase_model_wait_time(&mut self, model_name: &str, inserted_at: u64, now: u64)
        requires
            inserted_at <= now,
            now < TIME_LIMIT_MS,
        ensures
            bucket_wf(final(self)@),
            final(self)@ == (BucketView {
                backoffs: increase_spec(
                    old(self)@.backoffs,
                    model_name@,
                    old(self)@.factor,
                    old(self)@.max_exponent,
                    inserted_at,
                    now,
                ),
                ..old(self)@
            }),
    {
        proof {
            use_type_invariant(&*self);
        }
        let ghost old_map = entries_map(self.backoffs@);
        let idx = match self.find(model_name) {
            Some(i) => {
                proof {
                    lemma_map_at(self.backoffs@, i as int);
                    assert(old_map.insert(model_name@, old_map[model_name@]) =~= old_map);
                }
                i
            },
            None => {
                let e = BackoffEntry { model: crate::text::owned(model_name), attempt: BackoffBucketAttempt::default_at(inserted_at) };
                proof {
                    lemma_map_push(self.backoffs@, e);
                    assert(!old_map.contains_key(model_name@));
                }
                let mut records: Vec<BackoffEntry> = Vec::new();
                std::mem::swap(&mut records, &mut self.backoffs);
                records.push(e);
                self.backoffs = records;
                proof {
                    lemma_map_at(self.backoffs@, self.backoffs@.len() - 1);
                }
                self.backoffs.len() - 1
            },
        };
        let ghost mid = self.backoffs@;
        proof {
            lemma_map_at(mid, idx as int);
        }
        if self.backoffs[idx].attempt.deadline < now {
            let mut a = self.backoffs[idx].attempt;
            proof {
                lemma_delay_bounded(self.factor, next_attempt(a.current_attempt, self.max_exponent), self.max_exponent);
            }
            let next = a.increase_next_deadline(self.factor, self.max_exponent, now);
            a.deadline = next;
            let model = self.backoffs[idx].model.clone();
            let e = BackoffEntry { model, attempt: a };
            proof {
                lemma_map_update(mid, idx as int, e);
                assert(entries_map(mid).insert(model_name@, a) =~= old_map.insert(model_name@, a));
                let nm = entries_map(mid.update(idx as int, e));
                assert forall|m: Seq<char>| #[trigger] nm.contains_key(m) implies nm[m].current_attempt <= self.max_exponent
                    && nm[m].deadline <= TIME_LIMIT_MS + 0x1_0000_0000 by {
                    if m != model_name@ {
                        assert(entries_map(mid).contains_key(m));
                    }
                }
            }
            let mut records: Vec<BackoffEntry> = Vec::new();
            std::mem::swap(&mut records, &mut self.backoffs);
            records.set(idx, e);
            self.backoffs = records;
        }
        proof {
            assert forall|m: Seq<char>| #[trigger] self@.backoffs.contains_key(m) implies self@.backoffs[m].current_attempt
                <= self@.max_exponent && self@.backoffs[m].deadline <= TIME_LIMIT_MS + 0x1_0000_0000 by {
                if m != model_name@ {
                    assert(old_map.contains_key(m));
                }
            }
        }
    }

    /// Records a success for `model_name` at `now`: once its deadline has
    /// passed, its count goes back to zero.
    pub fn clear_model_backoff(&mut self, model_name: &str, now: u64)
        ensures
            bucket_wf(final(self)@),
            final(self)@ == (BucketView { backoffs: clear_spec(old(self)@.backoffs, model_name@, now), ..old(self)@ }),
    {
        proof {
            use_type_invariant(&*self);
        }
        let ghost old_map = entries_map(self.backoffs@);
        match self.find(model_name) {
            Some(idx) => {
                proof {
                    lemma_map_at(self.backoffs@, idx as int);
                }
                if self.backoffs[idx].attempt.deadline < now {
                    let mut a = self.backoffs[idx].attempt;
                    a.clear_backoff();
                    let model = self.backoffs[idx].model.clone();
                    let e = BackoffEntry { model, attempt: a };
                    proof {
                        lemma_map_update(self.backoffs@, idx as int, e);
                        let nm = entries_map(self.backoffs@.update(idx as int, e));
                        assert forall|m: Seq<char>| #[trigger] nm.contains_key(m) implies nm[m].current_attempt
                            <= self.max_exponent && nm[m].deadline <= TIME_LIMIT_MS + 0x1_0000_0000 by {
                            if m != model_name@ {
                                assert(old_map.contains_key(m));
                            }
                        }
                    }
                    let mut records: Vec<BackoffEntry> = Vec::new();
            std::mem::swap(&mut records, &mut self.backoffs);
            records.set(idx, e);
            self.backoffs = records;
                    proof {
                        assert forall|m: Seq<char>| #[trigger] self@.backoffs.contains_key(m) implies self@.backoffs[m].current_attempt
                            <= self@.max_exponent && self@.backoffs[m].deadline <= TIME_LIMIT_MS + 0x1_0000_0000 by {
                            if m != model_name@ {
                                assert(old_map.contains_key(m));
                            }
                        }
                    }
                }
            },
            None => {
                proof {
                    assert(!old_map.contains_key(model_name@));
                }
            },
        }
    }

    /// When a request for `model_name` made at `now` should go out: `None`
    /// if the model has no deadline still ahead, else the deadline plus a
    /// random jitter from the bucket's jitter range.
    pub fn wait_model_backoff(&mut self, model_name: &str, now: u64) -> (r: Option<u64>)
        ensures
            bucket_wf(final(self)@),
            final(self)@ == old(self)@,
            match wait_deadline_spec(old(self)@.backoffs, model_name@, now) {
                None => r is None,
                Some(d) => r matches Some(w) && d + old(self)@.jitter_min <= w < d + old(self)@.jitter_max,
            },
    {
        proof {
            use_type_invariant(&*self);
        }
        let deadline = match self.find(model_name) {
            None => {
                return None;
            },
            Some(idx) => {
                proof {
                    lemma_map_at(self.backoffs@, idx as int);
                }
                let a = self.backoffs[idx].attempt;
                if a.deadline < now {
                    return None;
                }
                a.deadline
            },
        };
        let jitter = random_in(&mut self.rng, self.jitter_min, self.jitter_max);
        Some(deadline + jitter)
    }

    /// The index of `model`'s record, if it has one.
    fn find(&self, model: &str) -> (r: Option<usize>)
        requires
            entries_distinct(self.backoffs@),
        ensures
            match r {
                Some(i) => i < self.backoffs@.len() && self.backoffs@[i as int].model@ == model@,
                None => !has_entry(self.backoffs@, model@),
            },
    {
        let mut i: usize = 0;
        while i < self.backoffs.len()
            invariant
                i <= self.backoffs@.len(),
                forall|j: int| 0 <= j < i ==> self.backoffs@[j].model@ != model@,
            decreases self.backoffs@.len() - i,
        {
            if crate::text::eq_str(self.backoffs[i].model.as_str(), model) {
                return Some(i);
            }
            i = i + 1;
        }
        None
    }
}

} // verus!
