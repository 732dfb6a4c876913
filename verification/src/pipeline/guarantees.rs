//! What every pipeline run guarantees, over whole sequences of events.
use vstd::prelude::*;

use crate::pipeline::cache::{
    cache_key, cache_value, colon_free, lemma_cache_value_reads_back, split_entry,
};
use crate::pipeline::process::{
    expects, initial, next, with_stage, ActionView, EventView, OutcomeView, RunView, StageView,
};

verus! {

/// The actions that a run starting as `r` asks for, one per event of `evs`.
pub open spec fn run_actions(r: RunView, evs: Seq<EventView>) -> Seq<ActionView>
    decreases evs.len(),
{
    if evs.len() == 0 {
        Seq::empty()
    } else {
        seq![next(r, evs[0]).1] + run_actions(next(r, evs[0]).0, evs.drop_first())
    }
}

/// Each event of `evs` is the one that the run, starting as `r`, waits for.
pub open spec fn well_formed(r: RunView, evs: Seq<EventView>) -> bool
    decreases evs.len(),
{
    evs.len() == 0 || (expects(r.stage, evs[0]) && well_formed(next(r, evs[0]).0, evs.drop_first()))
}

/// Some action of `acts` satisfies `p`.
pub open spec fn any_action(acts: Seq<ActionView>, p: spec_fn(ActionView) -> bool) -> bool {
    exists|i: int| 0 <= i < acts.len() && #[trigger] p(acts[i])
}

/// The run completed with a result read from the cache.
pub open spec fn is_hit(a: ActionView) -> bool {
    a matches ActionView::Complete(o) && o.cache_hit
}

/// The run asked for the model to be run.
pub open spec fn is_inference(a: ActionView) -> bool {
    a is RunInference
}

/// `a` writes to the cache, under the key of `phash` for a run as `r`, the
/// entry that records `score_text` and `label`, with the configured
/// lifetime.
pub open spec fn stores(
    a: ActionView,
    r: RunView,
    phash: Seq<char>,
    score_text: Seq<char>,
    label: Seq<char>,
) -> bool {
    a == ActionView::CacheSet {
        key: cache_key(r.phash_prefix, phash),
        value: cache_value(score_text, label),
        ttl_secs: r.cache_ttl_secs,
    }
}

/// `ev` is the model's answer `score_text` and `label`.
pub open spec fn infers(ev: EventView, score_text: Seq<char>, label: Seq<char>) -> bool {
    ev == EventView::Inferred(Ok((score_text, label)))
}

/// `ev` is a cache read that found an entry recording `score_text` and
/// `label`.
pub open spec fn reads_entry(ev: EventView, score_text: Seq<char>, label: Seq<char>) -> bool {
    ev matches EventView::CacheRead(Ok(Some(entry))) && split_entry(entry) == Some(
        (score_text, label),
    )
}

/// The keys that a run as `r` keeps are the cache keys of the hashes it
/// keeps.
pub open spec fn keys_consistent(r: RunView) -> bool {
    match r.stage {
        StageView::CheckingCache { phash, key } => key == cache_key(r.phash_prefix, phash),
        StageView::CheckingScore { phash, key, .. } => key == cache_key(r.phash_prefix, phash),
        StageView::Inferring { phash, key } => key == cache_key(r.phash_prefix, phash),
        StageView::Storing { phash, key, .. } => key == cache_key(r.phash_prefix, phash),
        _ => true,
    }
}

/// A stage before the model has been asked for anything.
pub open spec fn before_inference(s: StageView) -> bool {
    s is Downloading || s is Hashing || s is CheckingCache || s is CheckingScore
}

proof fn lemma_any_action_cons(a: ActionView, rest: Seq<ActionView>, p: spec_fn(ActionView) -> bool)
    ensures
        any_action(seq![a] + rest, p) == (p(a) || any_action(rest, p)),
{
    let s = seq![a] + rest;
    if any_action(rest, p) {
        let i = choose|i: int| 0 <= i < rest.len() && #[trigger] p(rest[i]);
        assert(s[i + 1] == rest[i]);
    }
    if p(a) {
        assert(s[0] == a);
    }
    if any_action(s, p) {
        let i = choose|i: int| 0 <= i < s.len() && #[trigger] p(s[i]);
        if i > 0 {
            assert(s[i] == rest[i - 1]);
        }
    }
}

proof fn lemma_finished_takes_no_event(r: RunView, evs: Seq<EventView>)
    requires
        well_formed(r, evs),
        r.stage is Finished,
    ensures
        evs.len() == 0,
        run_actions(r, evs) == Seq::<ActionView>::empty(),
{
}

/// A step keeps the URL, prefix and lifetime of a run, and its keys
/// consistent.
proof fn lemma_step_keeps_settings(r: RunView, ev: EventView)
    requires
        keys_consistent(r),
        expects(r.stage, ev),
    ensures
        next(r, ev).0.url == r.url,
        next(r, ev).0.phash_prefix == r.phash_prefix,
        next(r, ev).0.cache_ttl_secs == r.cache_ttl_secs,
        keys_consistent(next(r, ev).0),
{
}

proof fn lemma_run_actions_len(r: RunView, evs: Seq<EventView>)
    ensures
        run_actions(r, evs).len() == evs.len(),
    decreases evs.len(),
{
    if evs.len() > 0 {
        lemma_run_actions_len(next(r, evs[0]).0, evs.drop_first());
    }
}

/// From a stage at or after inference, the run never completes from the
/// cache.
proof fn lemma_no_hit_after_inference(r: RunView, evs: Seq<EventView>)
    requires
        well_formed(r, evs),
        r.stage is Inferring || r.stage is Storing,
    ensures
        !any_action(run_actions(r, evs), |a: ActionView| is_hit(a)),
    decreases evs.len(),
{
    let p = |a: ActionView| is_hit(a);
    if evs.len() > 0 {
        let (r1, a) = next(r, evs[0]);
        lemma_any_action_cons(a, run_actions(r1, evs.drop_first()), p);
        if r1.stage is Finished {
            lemma_finished_takes_no_event(r1, evs.drop_first());
        } else {
            lemma_no_hit_after_inference(r1, evs.drop_first());
        }
    }
}

proof fn lemma_hit_skips_inference_from(r: RunView, evs: Seq<EventView>)
    requires
        well_formed(r, evs),
        before_inference(r.stage),
    ensures
        any_action(run_actions(r, evs), |a: ActionView| is_hit(a)) ==> !any_action(
            run_actions(r, evs),
            |a: ActionView| is_inference(a),
        ),
    decreases evs.len(),
{
    let hit = |a: ActionView| is_hit(a);
    let inf = |a: ActionView| is_inference(a);
    if evs.len() > 0 {
        let (r1, a) = next(r, evs[0]);
        let rest = run_actions(r1, evs.drop_first());
        lemma_any_action_cons(a, rest, hit);
        lemma_any_action_cons(a, rest, inf);
        if r1.stage is Finished {
            lemma_finished_takes_no_event(r1, evs.drop_first());
        } else if before_inference(r1.stage) {
            lemma_hit_skips_inference_from(r1, evs.drop_first());
        } else {
            lemma_no_hit_after_inference(r1, evs.drop_first());
        }
    }
}

/// A result served from the cache never runs the model: in every run, if
/// the run completes with a cache hit, no action of the run asks for
/// inference.
pub proof fn lemma_cache_hit_skips_inference(
    url: Seq<char>,
    prefix: Seq<char>,
    ttl: u64,
    evs: Seq<EventView>,
)
    requires
        well_formed(initial(url, prefix, ttl), evs),
    ensures
        any_action(run_actions(initial(url, prefix, ttl), evs), |a: ActionView| is_hit(a)) ==> !any_action(
            run_actions(initial(url, prefix, ttl), evs),
            |a: ActionView| is_inference(a),
        ),
{
    lemma_hit_skips_inference_from(initial(url, prefix, ttl), evs);
}


/// The outcome carried by a completing action.
pub open spec fn outcome_of(a: ActionView) -> OutcomeView {
    a->Complete_0
}

/// The run completed with a result that the model computed.
pub open spec fn is_computed(a: ActionView) -> bool {
    a matches ActionView::Complete(o) && !o.cache_hit
}

/// The result at index `i` of the actions of a run as `r`, computed by the
/// model, was the model's answer to an earlier event, which the run wrote
/// to the cache right away (and the model was asked before that); or, where
/// the run was already past that point, it is the result that the run
/// holds.
pub open spec fn computed_result_stored_at(
    r: RunView,
    evs: Seq<EventView>,
    acts: Seq<ActionView>,
    i: int,
) -> bool {
    let o = outcome_of(acts[i]);
    &&& ((exists|j: int|
        0 <= j < i && #[trigger] stores(acts[j], r, o.phash, o.score_text, o.label) && infers(
            evs[j],
            o.score_text,
            o.label,
        )) || (r.stage matches StageView::Storing { phash, score_text, label, .. } && phash
        == o.phash && score_text == o.score_text && label == o.label))
    &&& ((exists|j: int| 0 <= j < i && #[trigger] is_inference(acts[j])) || r.stage is Inferring
        || r.stage is Storing)
}

/// Every computed result of the run as `r` was stored as the previous
/// function says.
pub open spec fn computed_results_stored(r: RunView, evs: Seq<EventView>) -> bool {
    let acts = run_actions(r, evs);
    forall|i: int|
        0 <= i < acts.len() && #[trigger] is_computed(acts[i]) ==> computed_result_stored_at(
            r,
            evs,
            acts,
            i,
        )
}

proof fn lemma_computed_results_stored_from(r: RunView, evs: Seq<EventView>)
    requires
        well_formed(r, evs),
        keys_consistent(r),
    ensures
        computed_results_stored(r, evs),
    decreases evs.len(),
{
    if evs.len() > 0 {
        let (r1, a) = next(r, evs[0]);
        let tail = evs.drop_first();
        let rest = run_actions(r1, tail);
        let acts = run_actions(r, evs);
        assert(acts == seq![a] + rest);
        lemma_step_keeps_settings(r, evs[0]);
        if r1.stage is Finished {
            lemma_finished_takes_no_event(r1, tail);
            assert(acts =~= seq![a]);
            if is_computed(a) {
                assert(r.stage is Storing);
                assert(computed_result_stored_at(r, evs, acts, 0));
            }
        } else {
            lemma_computed_results_stored_from(r1, tail);
            lemma_run_actions_len(r1, tail);
            assert forall|i: int|
                0 <= i < acts.len() && #[trigger] is_computed(acts[i])
                    implies computed_result_stored_at(r, evs, acts, i) by {
                assert(i > 0);
                assert(acts[i] == rest[i - 1]);
                assert(computed_result_stored_at(r1, tail, rest, i - 1));
                let o = outcome_of(acts[i]);
                if exists|j: int|
                    0 <= j < i - 1 && #[trigger] stores(rest[j], r1, o.phash, o.score_text, o.label)
                        && infers(tail[j], o.score_text, o.label) {
                    let j = choose|j: int|
                        0 <= j < i - 1 && #[trigger] stores(
                            rest[j],
                            r1,
                            o.phash,
                            o.score_text,
                            o.label,
                        ) && infers(tail[j], o.score_text, o.label);
                    assert(acts[j + 1] == rest[j]);
                    assert(evs[j + 1] == tail[j]);
                    assert(stores(acts[j + 1], r, o.phash, o.score_text, o.label));
                } else {
                    assert(r.stage is Inferring);
                    assert(infers(evs[0], o.score_text, o.label));
                    assert(stores(acts[0], r, o.phash, o.score_text, o.label));
                }
                if exists|j: int| 0 <= j < i - 1 && #[trigger] is_inference(rest[j]) {
                    let j = choose|j: int| 0 <= j < i - 1 && #[trigger] is_inference(rest[j]);
                    assert(acts[j + 1] == rest[j]);
                } else if !(r.stage is Inferring || r.stage is Storing) {
                    assert(is_inference(acts[0]));
                }
            }
        }
    }
}

/// A result computed by the model is the model's answer, cached before it
/// is returned: in every run, each completion with a computed result
/// carries the score text and label of an earlier answer of the model,
/// which the run wrote to the cache at once, under the key of the image's
/// hash and with the configured lifetime; and the model was asked before.
pub proof fn lemma_computed_result_is_cached(
    url: Seq<char>,
    prefix: Seq<char>,
    ttl: u64,
    evs: Seq<EventView>,
)
    requires
        well_formed(initial(url, prefix, ttl), evs),
    ensures
        forall|i: int|
            0 <= i < run_actions(initial(url, prefix, ttl), evs).len() && #[trigger] is_computed(
                run_actions(initial(url, prefix, ttl), evs)[i],
            ) ==> (exists|j: int|
                0 <= j < i && #[trigger] stores(
                    run_actions(initial(url, prefix, ttl), evs)[j],
                    initial(url, prefix, ttl),
                    outcome_of(run_actions(initial(url, prefix, ttl), evs)[i]).phash,
                    outcome_of(run_actions(initial(url, prefix, ttl), evs)[i]).score_text,
                    outcome_of(run_actions(initial(url, prefix, ttl), evs)[i]).label,
                ) && infers(
                    evs[j],
                    outcome_of(run_actions(initial(url, prefix, ttl), evs)[i]).score_text,
                    outcome_of(run_actions(initial(url, prefix, ttl), evs)[i]).label,
                )) && (exists|j: int|
                0 <= j < i && #[trigger] is_inference(
                    run_actions(initial(url, prefix, ttl), evs)[j],
                )),
{
    lemma_computed_results_stored_from(initial(url, prefix, ttl), evs);
}


/// Every cache hit at index `i` of the actions of a run as `r` returns the
/// score text and label of an entry that an earlier event read back from the cache, after
/// the run asked for the key of the outcome's hash; or, where the run was
/// already past that request, the entry that it holds.
pub open spec fn hits_come_from_cache(r: RunView, evs: Seq<EventView>) -> bool {
    let acts = run_actions(r, evs);
    forall|i: int|
        0 <= i < acts.len() && #[trigger] is_hit(acts[i]) ==> {
            ||| exists|j: int|
                1 <= j <= i && acts[j - 1] == (ActionView::CacheGet {
                    key: cache_key(r.phash_prefix, outcome_of(acts[i]).phash),
                }) && #[trigger] reads_entry(evs[j], outcome_of(acts[i]).score_text, outcome_of(acts[i]).label)
            ||| r.stage matches StageView::CheckingCache { phash, .. } && phash == outcome_of(
                acts[i],
            ).phash && reads_entry(evs[0], outcome_of(acts[i]).score_text, outcome_of(acts[i]).label)
            ||| r.stage matches StageView::CheckingScore { phash, score_text, label, .. } && phash
                == outcome_of(acts[i]).phash && score_text == outcome_of(acts[i]).score_text
                && label == outcome_of(acts[i]).label
        }
}

proof fn lemma_hits_come_from_cache_from(r: RunView, evs: Seq<EventView>)
    requires
        well_formed(r, evs),
        keys_consistent(r),
    ensures
        hits_come_from_cache(r, evs),
    decreases evs.len(),
{
    if evs.len() > 0 {
        let (r1, a) = next(r, evs[0]);
        let tail = evs.drop_first();
        let rest = run_actions(r1, tail);
        let acts = run_actions(r, evs);
        assert(acts == seq![a] + rest);
        lemma_step_keeps_settings(r, evs[0]);
        if r1.stage is Finished {
            lemma_finished_takes_no_event(r1, tail);
            assert(acts =~= seq![a]);
        } else if r1.stage is Inferring || r1.stage is Storing {
            lemma_no_hit_after_inference(r1, tail);
            assert forall|i: int| 0 <= i < acts.len() implies !#[trigger] is_hit(acts[i]) by {
                if i > 0 {
                    assert(acts[i] == rest[i - 1]);
                    let p = |x: ActionView| is_hit(x);
                    assert(!p(rest[i - 1]));
                }
            }
        } else {
            lemma_hits_come_from_cache_from(r1, tail);
            lemma_run_actions_len(r1, tail);
            assert forall|i: int| 0 <= i < acts.len() && #[trigger] is_hit(acts[i]) implies {
                ||| exists|j: int|
                    1 <= j <= i && acts[j - 1] == (ActionView::CacheGet {
                        key: cache_key(r.phash_prefix, outcome_of(acts[i]).phash),
                    }) && #[trigger] reads_entry(evs[j], outcome_of(acts[i]).score_text, outcome_of(acts[i]).label)
                ||| r.stage matches StageView::CheckingCache { phash, .. } && phash
                    == outcome_of(acts[i]).phash && reads_entry(evs[0], outcome_of(acts[i]).score_text, outcome_of(acts[i]).label)
                ||| r.stage matches StageView::CheckingScore { phash, score_text, label, .. }
                    && phash == outcome_of(acts[i]).phash && score_text == outcome_of(
                    acts[i],
                ).score_text && label == outcome_of(acts[i]).label
            } by {
                assert(i > 0);
                assert(acts[i] == rest[i - 1]);
                let o = outcome_of(acts[i]);
                if exists|j: int|
                    1 <= j <= i - 1 && rest[j - 1] == (ActionView::CacheGet {
                        key: cache_key(r1.phash_prefix, o.phash),
                    }) && #[trigger] reads_entry(tail[j], o.score_text, o.label) {
                    let j = choose|j: int|
                        1 <= j <= i - 1 && rest[j - 1] == (ActionView::CacheGet {
                            key: cache_key(r1.phash_prefix, o.phash),
                        }) && #[trigger] reads_entry(tail[j], o.score_text, o.label);
                    assert(acts[j] == rest[j - 1]);
                    assert(evs[j + 1] == tail[j]);
                    assert(reads_entry(evs[j + 1], o.score_text, o.label));
                } else if r1.stage is CheckingCache {
                    assert(r.stage is Hashing);
                    assert(acts[0] == (ActionView::CacheGet {
                        key: cache_key(r.phash_prefix, o.phash),
                    }));
                    assert(evs[1] == tail[0]);
                    assert(reads_entry(evs[1], o.score_text, o.label));
                } else {
                    assert(r1.stage is CheckingScore);
                    assert(r.stage is CheckingCache);
                    assert(reads_entry(evs[0], o.score_text, o.label));
                }
            }
        }
    }
}

/// A cache hit returns what the cache holds for the image: in every run,
/// each completion from the cache returns the score text and label of an
/// entry that a
/// cache read found, where that read answered a request for the key of the
/// outcome's hash.
pub proof fn lemma_cache_hit_returns_cached_label(
    url: Seq<char>,
    prefix: Seq<char>,
    ttl: u64,
    evs: Seq<EventView>,
)
    requires
        well_formed(initial(url, prefix, ttl), evs),
    ensures
        forall|i: int|
            0 <= i < run_actions(initial(url, prefix, ttl), evs).len() && #[trigger] is_hit(
                run_actions(initial(url, prefix, ttl), evs)[i],
            ) ==> exists|j: int|
                1 <= j <= i && run_actions(initial(url, prefix, ttl), evs)[j - 1] == (
                ActionView::CacheGet {
                    key: cache_key(
                        prefix,
                        outcome_of(run_actions(initial(url, prefix, ttl), evs)[i]).phash,
                    ),
                }) && #[trigger] reads_entry(
                    evs[j],
                    outcome_of(run_actions(initial(url, prefix, ttl), evs)[i]).score_text,
                    outcome_of(run_actions(initial(url, prefix, ttl), evs)[i]).label,
                ),
{
    lemma_hits_come_from_cache_from(initial(url, prefix, ttl), evs);
}


/// What one run writes to the cache serves the next run on the same image:
/// when a run that holds hash `phash` reads back the entry written for score
/// text `s` and label `l`, it asks to check `s` and, if `s` is a number,
/// completes from the cache with score text `s` and label `l`, without
/// running the model.
pub proof fn lemma_stored_entry_serves_later_runs(
    r: RunView,
    phash: Seq<char>,
    s: Seq<char>,
    l: Seq<char>,
)
    requires
        r.stage == (StageView::CheckingCache { phash, key: cache_key(r.phash_prefix, phash) }),
        colon_free(s),
    ensures
        ({
            let key = cache_key(r.phash_prefix, phash);
            let read = next(r, EventView::CacheRead(Ok(Some(cache_value(s, l)))));
            &&& read == (
                with_stage(r, StageView::CheckingScore { phash, key, score_text: s, label: l }),
                ActionView::ParseScore { score_text: s },
            )
            &&& next(read.0, EventView::ScoreChecked(true)).1 == ActionView::Complete(
                OutcomeView { url: r.url, phash, score_text: s, label: l, cache_hit: true },
            )
        }),
{
    lemma_cache_value_reads_back(s, l);
}

/// A run never refuses the outcome of the action it asked for: in every
/// stage but the last, every event of the kind that answers the stage's
/// action, success or failure, is one the run takes.
pub proof fn lemma_every_outcome_is_taken(stage: StageView, ev: EventView)
    requires
        (stage is Downloading && ev is Downloaded) || (stage is Hashing && ev is Hashed) || (
        stage is CheckingCache && ev is CacheRead) || (stage is CheckingScore && ev is ScoreChecked)
            || (stage is Inferring && ev is Inferred) || (stage is Storing && ev is Stored),
    ensures
        expects(stage, ev),
{
}

/// A cache miss runs to the model's result: a run whose download and
/// decoding succeed, whose cache read finds nothing, whose model answers
/// score text `s` and label `l` and whose cache write succeeds takes each
/// of these events, asks in turn to decode and hash, to read the key
/// `prefix + phash`, to run the model and to write `s:l` under that key
/// with the configured lifetime, and completes with `s` and `l`, not from
/// the cache.
pub proof fn lemma_cache_miss_completes_with_model_result(
    url: Seq<char>,
    prefix: Seq<char>,
    ttl: u64,
    phash: Seq<char>,
    s: Seq<char>,
    l: Seq<char>,
)
    ensures
        ({
            let evs = seq![
                EventView::Downloaded(Ok(())),
                EventView::Hashed(Ok(phash)),
                EventView::CacheRead(Ok(None)),
                EventView::Inferred(Ok((s, l))),
                EventView::Stored(Ok(())),
            ];
            &&& well_formed(initial(url, prefix, ttl), evs)
            &&& run_actions(initial(url, prefix, ttl), evs) == seq![
                ActionView::DecodeAndHash,
                ActionView::CacheGet { key: prefix + phash },
                ActionView::RunInference,
                ActionView::CacheSet { key: prefix + phash, value: s + seq![':'] + l, ttl_secs: ttl },
                ActionView::Complete(
                    OutcomeView { url, phash, score_text: s, label: l, cache_hit: false },
                ),
            ]
        }),
{
    let evs = seq![
        EventView::Downloaded(Ok(())),
        EventView::Hashed(Ok(phash)),
        EventView::CacheRead(Ok(None)),
        EventView::Inferred(Ok((s, l))),
        EventView::Stored(Ok(())),
    ];
    let r0 = initial(url, prefix, ttl);
    let key = prefix + phash;
    let r1 = with_stage(r0, StageView::Hashing);
    let r2 = with_stage(r0, StageView::CheckingCache { phash, key });
    let r3 = with_stage(r0, StageView::Inferring { phash, key });
    let r4 = with_stage(r0, StageView::Storing { phash, key, score_text: s, label: l });
    let r5 = with_stage(r0, StageView::Finished);
    let e1 = evs.drop_first();
    let e2 = e1.drop_first();
    let e3 = e2.drop_first();
    let e4 = e3.drop_first();
    let e5 = e4.drop_first();
    assert(e1 =~= evs.subrange(1, 5));
    assert(e2 =~= evs.subrange(2, 5));
    assert(e3 =~= evs.subrange(3, 5));
    assert(e4 =~= evs.subrange(4, 5));
    assert(e5 =~= Seq::<EventView>::empty());
    assert(next(r0, evs[0]) == (r1, ActionView::DecodeAndHash));
    assert(next(r1, e1[0]) == (r2, ActionView::CacheGet { key }));
    assert(next(r2, e2[0]) == (r3, ActionView::RunInference));
    assert(next(r3, e3[0]) == (
        r4,
        ActionView::CacheSet { key, value: s + seq![':'] + l, ttl_secs: ttl },
    ));
    assert(next(r4, e4[0]) == (
        r5,
        ActionView::Complete(OutcomeView { url, phash, score_text: s, label: l, cache_hit: false }),
    ));
    assert(well_formed(r5, e5));
    assert(well_formed(r4, e4));
    assert(well_formed(r3, e3));
    assert(well_formed(r2, e2));
    assert(well_formed(r1, e1));
    assert(run_actions(r5, e5) =~= Seq::<ActionView>::empty());
    assert(run_actions(r4, e4) =~= seq![
        ActionView::Complete(OutcomeView { url, phash, score_text: s, label: l, cache_hit: false }),
    ]);
    assert(run_actions(r3, e3) =~= seq![
        ActionView::CacheSet { key, value: s + seq![':'] + l, ttl_secs: ttl },
        ActionView::Complete(OutcomeView { url, phash, score_text: s, label: l, cache_hit: false }),
    ]);
    assert(run_actions(r2, e2) =~= seq![
        ActionView::RunInference,
        ActionView::CacheSet { key, value: s + seq![':'] + l, ttl_secs: ttl },
        ActionView::Complete(OutcomeView { url, phash, score_text: s, label: l, cache_hit: false }),
    ]);
    assert(run_actions(r1, e1) =~= seq![
        ActionView::CacheGet { key },
        ActionView::RunInference,
        ActionView::CacheSet { key, value: s + seq![':'] + l, ttl_secs: ttl },
        ActionView::Complete(OutcomeView { url, phash, score_text: s, label: l, cache_hit: false }),
    ]);
}

/// A cache hit runs to the cached result: a run whose download and
/// decoding succeed and whose cache read finds the entry `s:l` (with a
/// score text `s` that holds no colon, as a number's never does) asks to
/// decode and hash, to read the key `prefix + phash` and to check `s`;
/// when `s` is a number it completes with `s` and `l` from the cache.
pub proof fn lemma_cache_hit_completes_with_cached_result(
    url: Seq<char>,
    prefix: Seq<char>,
    ttl: u64,
    phash: Seq<char>,
    s: Seq<char>,
    l: Seq<char>,
)
    requires
        colon_free(s),
    ensures
        ({
            let evs = seq![
                EventView::Downloaded(Ok(())),
                EventView::Hashed(Ok(phash)),
                EventView::CacheRead(Ok(Some(s + seq![':'] + l))),
                EventView::ScoreChecked(true),
            ];
            &&& well_formed(initial(url, prefix, ttl), evs)
            &&& run_actions(initial(url, prefix, ttl), evs) == seq![
                ActionView::DecodeAndHash,
                ActionView::CacheGet { key: prefix + phash },
                ActionView::ParseScore { score_text: s },
                ActionView::Complete(
                    OutcomeView { url, phash, score_text: s, label: l, cache_hit: true },
                ),
            ]
        }),
{
    let evs = seq![
        EventView::Downloaded(Ok(())),
        EventView::Hashed(Ok(phash)),
        EventView::CacheRead(Ok(Some(s + seq![':'] + l))),
        EventView::ScoreChecked(true),
    ];
    lemma_cache_value_reads_back(s, l);
    let r0 = initial(url, prefix, ttl);
    let key = prefix + phash;
    let r1 = with_stage(r0, StageView::Hashing);
    let r2 = with_stage(r0, StageView::CheckingCache { phash, key });
    let r3 = with_stage(r0, StageView::CheckingScore { phash, key, score_text: s, label: l });
    let r4 = with_stage(r0, StageView::Finished);
    let e1 = evs.drop_first();
    let e2 = e1.drop_first();
    let e3 = e2.drop_first();
    let e4 = e3.drop_first();
    assert(e1 =~= evs.subrange(1, 4));
    assert(e2 =~= evs.subrange(2, 4));
    assert(e3 =~= evs.subrange(3, 4));
    assert(e4 =~= Seq::<EventView>::empty());
    assert(next(r0, evs[0]) == (r1, ActionView::DecodeAndHash));
    assert(next(r1, e1[0]) == (r2, ActionView::CacheGet { key }));
    assert(next(r2, e2[0]) == (r3, ActionView::ParseScore { score_text: s }));
    assert(next(r3, e3[0]) == (
        r4,
        ActionView::Complete(OutcomeView { url, phash, score_text: s, label: l, cache_hit: true }),
    ));
    assert(well_formed(r4, e4));
    assert(well_formed(r3, e3));
    assert(well_formed(r2, e2));
    assert(well_formed(r1, e1));
    assert(run_actions(r4, e4) =~= Seq::<ActionView>::empty());
    assert(run_actions(r3, e3) =~= seq![
        ActionView::Complete(OutcomeView { url, phash, score_text: s, label: l, cache_hit: true }),
    ]);
    assert(run_actions(r2, e2) =~= seq![
        ActionView::ParseScore { score_text: s },
        ActionView::Complete(OutcomeView { url, phash, score_text: s, label: l, cache_hit: true }),
    ]);
    assert(run_actions(r1, e1) =~= seq![
        ActionView::CacheGet { key },
        ActionView::ParseScore { score_text: s },
        ActionView::Complete(OutcomeView { url, phash, score_text: s, label: l, cache_hit: true }),
    ]);
}

} // verus!
