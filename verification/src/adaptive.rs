use vstd::prelude::*;

verus! {

/// An adaptive threshold is warmed up once it holds at least
/// `warmup_samples` samples.
pub open spec fn spec_warmed_up(sample_count: int, warmup_samples: int) -> bool {
    sample_count >= warmup_samples
}

/// Whether a threshold holding `sample_count` samples has finished its
/// warm-up period of `warmup_samples` samples.
pub fn is_warmed_up(sample_count: usize, warmup_samples: usize) -> (r: bool)
    ensures
        r == spec_warmed_up(sample_count as int, warmup_samples as int),
        r <==> sample_count >= warmup_samples,
{
    sample_count >= warmup_samples
}

/// The confidence that an adaptive check carries, as an exact ratio.
///
/// Before warm-up it is zero; it then grows with the number of samples and
/// reaches one at three times the warm-up length.
#[derive(Clone, Copy, Debug, PartialEq, Eq, Structural)]
pub enum Confidence {
    /// Not warmed up yet: the confidence is zero.
    Zero,
    /// Warmed up but short of full confidence: `samples / full_at`, below one.
    Partial { samples: usize, full_at: usize },
    /// Full confidence: one.
    Full,
}

impl Confidence {
    /// Numerator of the ratio that the confidence stands for.
    pub open spec fn numerator(self) -> nat {
        match self {
            Confidence::Zero => 0,
            Confidence::Partial { samples, .. } => samples as nat,
            Confidence::Full => 1,
        }
    }

    /// Denominator of the ratio that the confidence stands for.
    pub open spec fn denominator(self) -> nat {
        match self {
            Confidence::Zero => 1,
            Confidence::Partial { full_at, .. } => full_at as nat,
            Confidence::Full => 1,
        }
    }
}

/// The confidence of a check made with `sample_count` samples against a
/// warm-up length of `warmup_samples`: zero before warm-up, otherwise
/// `min(1, sample_count / (3 * warmup_samples))`.
pub open spec fn spec_confidence(sample_count: int, warmup_samples: int) -> Confidence {
    if !spec_warmed_up(sample_count, warmup_samples) {
        Confidence::Zero
    } else if sample_count >= 3 * warmup_samples {
        Confidence::Full
    } else {
        Confidence::Partial {
            samples: sample_count as usize,
            full_at: (3 * warmup_samples) as usize,
        }
    }
}

/// The confidence of a check made with `sample_count` samples.
///
/// Once warmed up the full-confidence mark `3 * warmup_samples` is computed
/// in `usize`; that product must fit.
pub fn confidence(sample_count: usize, warmup_samples: usize) -> (c: Confidence)
    requires
        spec_warmed_up(sample_count as int, warmup_samples as int) ==> 3 * warmup_samples
            <= usize::MAX,
    ensures
        c == spec_confidence(sample_count as int, warmup_samples as int),
        sample_count < warmup_samples ==> c == Confidence::Zero,
        sample_count >= warmup_samples && sample_count >= 3 * warmup_samples ==> c
            == Confidence::Full,
        sample_count >= warmup_samples && sample_count < 3 * warmup_samples ==> c
            == (Confidence::Partial { samples: sample_count, full_at: (3 * warmup_samples) as usize }),
{
    if !is_warmed_up(sample_count, warmup_samples) {
        Confidence::Zero
    } else {
        let full_at: usize = warmup_samples * 3;
        if sample_count >= full_at {
            Confidence::Full
        } else {
            Confidence::Partial { samples: sample_count, full_at }
        }
    }
}

/// The confidence always lies between zero and one.
pub proof fn lemma_confidence_between_zero_and_one(sample_count: nat, warmup_samples: nat)
    requires
        spec_warmed_up(sample_count as int, warmup_samples as int) ==> 3 * warmup_samples
            <= usize::MAX,
        sample_count <= usize::MAX,
    ensures
        spec_confidence(sample_count as int, warmup_samples as int).denominator() > 0,
        spec_confidence(sample_count as int, warmup_samples as int).numerator()
            <= spec_confidence(sample_count as int, warmup_samples as int).denominator(),
{
}

/// More samples never lower the confidence: with `fewer <= more` samples
/// against the same warm-up length, the ratio for `fewer` is at most the
/// ratio for `more`.
pub proof fn lemma_confidence_monotone(fewer: nat, more: nat, warmup_samples: nat)
    requires
        fewer <= more,
        more <= usize::MAX,
        spec_warmed_up(more as int, warmup_samples as int) ==> 3 * warmup_samples
            <= usize::MAX,
    ensures
        ({
            let a = spec_confidence(fewer as int, warmup_samples as int);
            let b = spec_confidence(more as int, warmup_samples as int);
            a.numerator() * b.denominator() <= b.numerator() * a.denominator()
        }),
{
    let a = spec_confidence(fewer as int, warmup_samples as int);
    let b = spec_confidence(more as int, warmup_samples as int);
    if a is Partial && b is Partial {
        assert(a.numerator() * b.denominator() <= b.numerator() * a.denominator()) by (nonlinear_arith)
            requires
                a.numerator() == fewer,
                b.numerator() == more,
                a.denominator() == b.denominator(),
                fewer <= more,
        ;
    }
}

/// The history after a sample was offered: the sample is appended when it
/// was accepted, and the history is unchanged otherwise.
pub open spec fn spec_record<T>(history: Seq<T>, sample: T, accepted: bool) -> Seq<T> {
    if accepted {
        history.push(sample)
    } else {
        history
    }
}

/// Offers `sample` to `history`: it is appended exactly when `accepted`.
pub fn record_sample<T>(history: &mut Vec<T>, sample: T, accepted: bool)
    ensures
        final(history)@ == spec_record(old(history)@, sample, accepted),
        accepted ==> final(history)@.len() == old(history)@.len() + 1
            && final(history)@[old(history)@.len() as int] == sample
            && forall|i: int|
            0 <= i < old(history)@.len() ==> #[trigger] final(history)@[i] == old(history)@[i],
        !accepted ==> final(history)@ == old(history)@,
{
    if accepted {
        history.push(sample);
    }
}

/// Only accepted samples count: offering a sample grows the history by one
/// when it is accepted and leaves its length alone when it is rejected.
pub proof fn lemma_only_accepted_samples_count<T>(history: Seq<T>, sample: T, accepted: bool)
    ensures
        spec_record(history, sample, accepted).len() == history.len() + if accepted {
            1int
        } else {
            0int
        },
        !accepted ==> spec_record(history, sample, accepted) == history,
{
}

/// Once warmed up, a threshold stays warmed up whatever sample is offered,
/// and its confidence does not drop.
pub proof fn lemma_warm_up_persists<T>(
    history: Seq<T>,
    sample: T,
    accepted: bool,
    warmup_samples: nat,
)
    requires
        history.len() < usize::MAX,
        spec_warmed_up(
            spec_record(history, sample, accepted).len() as int,
            warmup_samples as int,
        ) ==> 3 * warmup_samples <= usize::MAX,
    ensures
        spec_warmed_up(history.len() as int, warmup_samples as int) ==> spec_warmed_up(
            spec_record(history, sample, accepted).len() as int,
            warmup_samples as int,
        ),
        ({
            let before = spec_confidence(history.len() as int, warmup_samples as int);
            let after = spec_confidence(
                spec_record(history, sample, accepted).len() as int,
                warmup_samples as int,
            );
            before.numerator() * after.denominator() <= after.numerator() * before.denominator()
        }),
{
    lemma_only_accepted_samples_count(history, sample, accepted);
    lemma_confidence_monotone(
        history.len(),
        spec_record(history, sample, accepted).len(),
        warmup_samples,
    );
}

/// Warm-up is a plain threshold on the sample count: a threshold is warmed
/// up exactly when it holds at least `warmup_samples` samples, so any count
/// short of the warm-up length leaves it cold.
pub proof fn lemma_warm_up_is_a_count_threshold(sample_count: int, warmup_samples: int)
    ensures
        spec_warmed_up(sample_count, warmup_samples) <==> sample_count >= warmup_samples,
        sample_count < warmup_samples ==> !spec_warmed_up(sample_count, warmup_samples),
        sample_count >= warmup_samples ==> spec_warmed_up(sample_count, warmup_samples),
{
}

/// The confidence ratio is `min(1, sample_count / (3 * warmup_samples))` once
/// warmed up and zero before: zero short of warm-up, full exactly from three
/// warm-ups on, and otherwise the ratio `sample_count / (3 * warmup_samples)`,
/// strictly below one.
pub proof fn lemma_confidence_ratio(sample_count: nat, warmup_samples: nat)
    requires
        sample_count <= usize::MAX,
        sample_count >= warmup_samples ==> 3 * warmup_samples <= usize::MAX,
    ensures
        ({
            let c = spec_confidence(sample_count as int, warmup_samples as int);
            &&& sample_count < warmup_samples ==> c == Confidence::Zero
            &&& c is Full <==> (sample_count >= warmup_samples && sample_count >= 3
                * warmup_samples)
            &&& (sample_count >= warmup_samples && sample_count < 3 * warmup_samples) ==> {
                &&& c matches Confidence::Partial { samples, full_at }
                &&& samples == sample_count
                &&& full_at == 3 * warmup_samples
                &&& samples < full_at
            }
        }),
{
}

/// Recording a reading appends it at the end: an accepted sample becomes the
/// newest entry and every earlier entry keeps its place, while a rejected
/// sample leaves the history as it was.
pub proof fn lemma_record_appends_at_end<T>(history: Seq<T>, sample: T, accepted: bool)
    ensures
        accepted ==> {
            let after = spec_record(history, sample, accepted);
            &&& after.len() == history.len() + 1
            &&& after[history.len() as int] == sample
            &&& forall|i: int| 0 <= i < history.len() ==> #[trigger] after[i] == history[i]
        },
        !accepted ==> spec_record(history, sample, accepted) == history,
{
}

} // verus!
