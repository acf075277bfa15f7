use crate::key_counter::{signature_verifies, verify_signature, KeyCounter};
use crate::price::{is_zero, price_text, render, zero_bits};
use vstd::prelude::*;
use vstd::utf8::encode_utf8;

verus! {

/// One configured price source.
#[derive(Clone, Debug, PartialEq, PartialOrd)]
pub struct WebSocket {
    ws_url: String,
    msg: Option<String>,
    name: String,
    pointer: String,
}

/// What a feed definition holds, as plain values.
pub struct WebSocketView {
    pub ws_url: Seq<char>,
    pub msg: Option<Seq<char>>,
    pub name: Seq<char>,
    pub pointer: Seq<char>,
}

impl View for WebSocket {
    type V = WebSocketView;

    closed spec fn view(&self) -> WebSocketView {
        WebSocketView {
            ws_url: self.ws_url@,
            msg: match self.msg {
                Some(text) => Some(text@),
                None => None,
            },
            name: self.name@,
            pointer: self.pointer@,
        }
    }
}

impl WebSocket {
    pub fn new(ws_url: String, msg: Option<String>, name: String, pointer: String) -> (feed: Self)
        ensures
            feed@.ws_url == ws_url@,
            feed@.msg == match msg {
                Some(text) => Some(text@),
                None => None::<Seq<char>>,
            },
            feed@.name == name@,
            feed@.pointer == pointer@,
    {
        WebSocket { ws_url, msg, name, pointer }
    }

    /// The endpoint to connect to.
    pub fn ws_url(&self) -> (url: &String)
        ensures
            url@ == self@.ws_url,
    {
        &self.ws_url
    }

    /// The text to send right after connecting, where the feed needs one.
    pub fn msg(&self) -> (msg: &Option<String>)
        ensures
            match *msg {
                Some(text) => self@.msg == Some(text@),
                None => self@.msg is None,
            },
    {
        &self.msg
    }

    pub fn name(&self) -> (name: &String)
        ensures
            name@ == self@.name,
    {
        &self.name
    }

    /// The JSON pointer that selects the price in a message of this feed.
    pub fn pointer(&self) -> (pointer: &String)
        ensures
            pointer@ == self@.pointer,
    {
        &self.pointer
    }
}

/// What one feed hands back when its window has closed: its name, the
/// average of the window as the bit pattern of a double, and the signature
/// over the text of the average.
#[derive(Clone, Debug, PartialEq, Eq)]
pub struct FeedResult {
    pub name: String,
    pub average: u64,
    pub signature: Vec<u8>,
}

/// A feed's result as plain values.
pub struct FeedResultView {
    pub name: Seq<char>,
    pub average: u64,
    pub signature: Seq<u8>,
}

impl View for FeedResult {
    type V = FeedResultView;

    open spec fn view(&self) -> FeedResultView {
        FeedResultView { name: self.name@, average: self.average, signature: self.signature@ }
    }
}

/// Whether `signature` holds for the average `average` under `key`: it has
/// to verify over the text of the average.
pub open spec fn vouches(key: Seq<u8>, average: u64, signature: Seq<u8>) -> bool {
    signature_verifies(key, encode_utf8(price_text(average)), signature)
}

/// What the orchestrator makes of one feed's result.
#[derive(Clone, Copy, Debug, PartialEq, Eq, Structural)]
pub enum Verdict {
    /// The signature holds and the average is not zero: the feed counts.
    Accepted,
    /// The signature holds, but the feed collected nothing: it is passed over.
    NoData,
    /// The signature does not hold for the reported average.
    Forged,
}

/// The verdict on `result`, given the verifying keys on record.
pub open spec fn verdict_of(result: FeedResultView, keys: Map<Seq<char>, Seq<u8>>) -> Verdict {
    if !vouches(keys[result.name], result.average, result.signature) {
        Verdict::Forged
    } else if zero_bits(result.average) {
        Verdict::NoData
    } else {
        Verdict::Accepted
    }
}

/// The results that count towards the aggregate.
pub open spec fn counts(keys: Map<Seq<char>, Seq<u8>>) -> spec_fn(FeedResultView) -> bool {
    |result: FeedResultView| verdict_of(result, keys) is Accepted
}

/// The results whose signature does not hold.
pub open spec fn forged(keys: Map<Seq<char>, Seq<u8>>) -> spec_fn(FeedResultView) -> bool {
    |result: FeedResultView| verdict_of(result, keys) is Forged
}

/// The plain values of a list of results.
pub open spec fn views(results: Seq<FeedResult>) -> Seq<FeedResultView> {
    results.map_values(|result: FeedResult| result@)
}

/// The names of a list of results, in the same order.
pub open spec fn names(results: Seq<FeedResultView>) -> Seq<Seq<char>> {
    results.map_values(|result: FeedResultView| result.name)
}

/// The plain values of a list of names.
pub open spec fn texts(names: Seq<String>) -> Seq<Seq<char>> {
    names.map_values(|name: String| name@)
}

/// Checks one feed's signature against the key on record for its name, over
/// the text of the average it reports, and tells whether the feed counts.
pub fn assess(result: &FeedResult, registry: &KeyCounter) -> (verdict: Verdict)
    requires
        registry@.contains_key(result.name@),
    ensures
        verdict == verdict_of(result@, registry@),
{
    let key = registry.lookup(result.name.as_str());
    let text = render(result.average);
    if !verify_signature(key, text.as_str(), result.signature.as_slice()) {
        Verdict::Forged
    } else if is_zero(result.average) {
        Verdict::NoData
    } else {
        Verdict::Accepted
    }
}

/// Looks for a result whose feed has no key on record. `None` says that
/// every result can be assessed.
pub fn first_unregistered(results: &Vec<FeedResult>, registry: &KeyCounter) -> (missing: Option<
    usize,
>)
    ensures
        match missing {
            Some(at) => {
                &&& at < results.len()
                &&& !registry@.contains_key(results[at as int].name@)
                &&& forall|i: int| 0 <= i < at ==> registry@.contains_key(#[trigger] results[i].name@)
            },
            None => forall|i: int|
                0 <= i < results.len() ==> registry@.contains_key(#[trigger] results[i].name@),
        },
{
    let mut at: usize = 0;
    while at < results.len()
        invariant
            at <= results.len(),
            forall|i: int| 0 <= i < at ==> registry@.contains_key(#[trigger] results[i].name@),
        decreases results.len() - at,
    {
        if !registry.contains(results[at].name.as_str()) {
            return Some(at);
        }
        at += 1;
    }
    None
}

/// The results of the feeds that handed one back, in the order of the feeds.
pub open spec fn delivered(outcomes: Seq<Option<FeedResult>>) -> Seq<FeedResult>
    decreases outcomes.len(),
{
    if outcomes.len() == 0 {
        Seq::empty()
    } else {
        match outcomes.last() {
            Some(result) => delivered(outcomes.drop_last()).push(result),
            None => delivered(outcomes.drop_last()),
        }
    }
}

/// Joins the feeds of a run. A feed that failed leaves no entry; the others
/// keep their results and their order.
pub fn join_results(outcomes: Vec<Option<FeedResult>>) -> (results: Vec<FeedResult>)
    ensures
        results@ == delivered(outcomes@),
{
    let ghost all = outcomes@;
    let mut results: Vec<FeedResult> = Vec::new();
    for outcome in it: outcomes
        invariant
            all == it.seq(),
            results@ == delivered(all.take(it.index() as int)),
    {
        assert(all.take(it.index() + 1).drop_last() =~= all.take(it.index() as int));
        if let Some(result) = outcome {
            results.push(result);
        }
    }
    assert(all.take(all.len() as int) =~= all);
    results
}

/// A feed that hands back nothing leaves the joined list as it would be
/// without that feed.
pub proof fn lemma_failed_feed_leaves_no_entry(outcomes: Seq<Option<FeedResult>>, i: int)
    requires
        0 <= i < outcomes.len(),
        outcomes[i] is None,
    ensures
        delivered(outcomes) == delivered(outcomes.remove(i)),
    decreases outcomes.len(),
{
    if i == outcomes.len() - 1 {
        assert(outcomes.remove(i) =~= outcomes.drop_last());
    } else {
        lemma_failed_feed_leaves_no_entry(outcomes.drop_last(), i);
        assert(outcomes.remove(i).drop_last() =~= outcomes.drop_last().remove(i));
        assert(outcomes.remove(i).last() == outcomes.last());
    }
}

/// The outcome of a run: the results that make up the aggregate, and the
/// names of the feeds left out because their signature did not hold.
pub struct Tally {
    pub accepted: Vec<FeedResult>,
    pub rejected: Vec<String>,
}

impl Tally {
    /// The averages that make up the aggregate, in the order of their feeds.
    pub fn terms(&self) -> (terms: Vec<u64>)
        ensures
            terms@ == views(self.accepted@).map_values(|result: FeedResultView| result.average),
    {
        let mut terms: Vec<u64> = Vec::new();
        let mut i: usize = 0;
        while i < self.accepted.len()
            invariant
                i <= self.accepted.len(),
                terms@ == views(self.accepted@).map_values(|result: FeedResultView| result.average).take(
                    i as int,
                ),
            decreases self.accepted.len() - i,
        {
            terms.push(self.accepted[i].average);
            i += 1;
            assert(terms@ =~= views(self.accepted@).map_values(
                |result: FeedResultView| result.average,
            ).take(i as int));
        }
        assert(views(self.accepted@).map_values(|result: FeedResultView| result.average).take(i as int)
            =~= views(self.accepted@).map_values(|result: FeedResultView| result.average));
        terms
    }
}

/// Sorts the joined results of a run. A result counts exactly when its
/// signature holds and its average is not zero; the results that count keep
/// their order.
pub fn tally(results: Vec<FeedResult>, registry: &KeyCounter) -> (outcome: Tally)
    requires
        forall|i: int| 0 <= i < results.len() ==> registry@.contains_key(#[trigger] results[i].name@),
    ensures
        views(outcome.accepted@) == views(results@).filter(counts(registry@)),
        texts(outcome.rejected@) == names(views(results@).filter(forged(registry@))),
{
    let ghost all = views(results@);
    let ghost keys = registry@;
    let mut accepted: Vec<FeedResult> = Vec::new();
    let mut rejected: Vec<String> = Vec::new();
    proof {
        reveal(Seq::filter);
        assert(all.take(0).filter(counts(keys)) =~= Seq::<FeedResultView>::empty());
        assert(views(accepted@) =~= Seq::<FeedResultView>::empty());
        assert(texts(rejected@) =~= Seq::<Seq<char>>::empty());
        assert(names(all.take(0).filter(forged(keys))) =~= Seq::<Seq<char>>::empty());
    }
    for result in it: results
        invariant
            keys == registry@,
            all == views(it.seq()),
            forall|i: int| 0 <= i < it.seq().len() ==> keys.contains_key(#[trigger] it.seq()[i].name@),
            views(accepted@) == all.take(it.index() as int).filter(counts(keys)),
            texts(rejected@) == names(all.take(it.index() as int).filter(forged(keys))),
    {
        let ghost seen = all.take(it.index() as int);
        let ghost next = all.take(it.index() + 1);
        proof {
            reveal(Seq::filter);
            assert(next.drop_last() =~= seen);
            assert(next.last() == result@);
        }
        match assess(&result, registry) {
            Verdict::Accepted => {
                accepted.push(result);
                assert(views(accepted@) =~= next.filter(counts(keys)));
            },
            Verdict::NoData => {},
            Verdict::Forged => {
                let ghost earlier = seen.filter(forged(keys));
                let ghost name = result.name@;
                rejected.push(result.name);
                assert(next.filter(forged(keys)) == earlier.push(next.last()));
                assert(names(earlier.push(next.last())) =~= names(earlier).push(name));
                assert(texts(rejected@) =~= names(earlier).push(name));
            },
        }
    }
    assert(all.take(all.len() as int) =~= all);
    Tally { accepted, rejected }
}

/// A result whose average is zero, or whose signature does not hold under
/// the key on record, is not among the results that count.
pub proof fn lemma_excluded_from_aggregate(
    results: Seq<FeedResultView>,
    keys: Map<Seq<char>, Seq<u8>>,
    result: FeedResultView,
)
    requires
        zero_bits(result.average) || !vouches(keys[result.name], result.average, result.signature),
    ensures
        !results.filter(counts(keys)).contains(result),
{
    let kept = results.filter(counts(keys));
    if kept.contains(result) {
        let i = choose|i: int| 0 <= i < kept.len() && kept[i] == result;
        results.lemma_filter_pred(counts(keys), i);
    }
}

/// A result whose signature holds and whose average is not zero is among the
/// results that count, and every result that counts is one of those reported.
pub proof fn lemma_included_in_aggregate(
    results: Seq<FeedResultView>,
    keys: Map<Seq<char>, Seq<u8>>,
    i: int,
)
    requires
        0 <= i < results.len(),
        !zero_bits(results[i].average),
        vouches(keys[results[i].name], results[i].average, results[i].signature),
    ensures
        results.filter(counts(keys)).contains(results[i]),
        forall|j: int|
            0 <= j < results.filter(counts(keys)).len() ==> results.contains(
                #[trigger] results.filter(counts(keys))[j],
            ),
{
    results.lemma_filter_contains(counts(keys), i);
    let kept = results.filter(counts(keys));
    assert forall|j: int| 0 <= j < kept.len() implies results.contains(#[trigger] kept[j]) by {
        assert(kept.contains(kept[j]));
        results.lemma_filter_contains_rev(counts(keys), kept[j]);
    }
}

/// Where no result counts, nothing is accepted.
pub proof fn lemma_nothing_counts(results: Seq<FeedResultView>, keys: Map<Seq<char>, Seq<u8>>)
    requires
        forall|i: int| 0 <= i < results.len() ==> !(verdict_of(#[trigger] results[i], keys) is Accepted),
    ensures
        results.filter(counts(keys)).len() == 0,
    decreases results.len(),
{
    reveal(Seq::filter);
    if results.len() > 0 {
        let rest = results.drop_last();
        assert forall|i: int| 0 <= i < rest.len() implies !(verdict_of(
            #[trigger] rest[i],
            keys,
        ) is Accepted) by {
            assert(rest[i] == results[i]);
        }
        lemma_nothing_counts(rest, keys);
        assert(!(verdict_of(results[results.len() - 1], keys) is Accepted));
    }
}

/// A result occurs among those that count as often as it was reported, if it
/// counts, and not at all otherwise.
proof fn lemma_counted_occurrences(
    results: Seq<FeedResultView>,
    keys: Map<Seq<char>, Seq<u8>>,
    result: FeedResultView,
)
    ensures
        results.filter(counts(keys)).to_multiset().count(result) == if verdict_of(
            result,
            keys,
        ) is Accepted {
            results.to_multiset().count(result)
        } else {
            0
        },
    decreases results.len(),
{
    reveal(Seq::filter);
    if results.len() == 0 {
        results.to_multiset_ensures();
        assert(results.to_multiset().len() == 0);
    } else {
        let rest = results.drop_last();
        let last = results.last();
        lemma_counted_occurrences(rest, keys, result);
        assert(results =~= rest.push(last));
        vstd::seq_lib::to_multiset_build(rest, last);
        if verdict_of(last, keys) is Accepted {
            vstd::seq_lib::to_multiset_build(rest.filter(counts(keys)), last);
        }
    }
}

/// The results that count do not depend on the order in which the results
/// of a run come in: two lists that hold the same results leave the same
/// results in the aggregate, each as often as in the other.
pub proof fn lemma_aggregate_ignores_order(
    first: Seq<FeedResultView>,
    second: Seq<FeedResultView>,
    keys: Map<Seq<char>, Seq<u8>>,
)
    requires
        first.to_multiset() == second.to_multiset(),
    ensures
        first.filter(counts(keys)).to_multiset() == second.filter(counts(keys)).to_multiset(),
        first.filter(counts(keys)).len() == second.filter(counts(keys)).len(),
{
    assert forall|result: FeedResultView|
        first.filter(counts(keys)).to_multiset().count(result) == second.filter(
            counts(keys),
        ).to_multiset().count(result) by {
        lemma_counted_occurrences(first, keys, result);
        lemma_counted_occurrences(second, keys, result);
    }
    assert(first.filter(counts(keys)).to_multiset() =~= second.filter(counts(keys)).to_multiset());
    first.filter(counts(keys)).to_multiset_ensures();
    second.filter(counts(keys)).to_multiset_ensures();
}

/// The keys on record once the feeds of `sealed` have registered theirs, one
/// after the other. Each entry is a feed's result and the key it sealed
/// with.
pub open spec fn registry_after(
    keys: Map<Seq<char>, Seq<u8>>,
    sealed: Seq<(FeedResultView, Seq<u8>)>,
) -> Map<Seq<char>, Seq<u8>>
    decreases sealed.len(),
{
    if sealed.len() == 0 {
        keys
    } else {
        registry_after(keys, sealed.drop_last()).insert(sealed.last().0.name, sealed.last().1)
    }
}

/// Where no two feeds share a name, a feed whose signature holds under the
/// key it registered is on record once all feeds have registered, and its
/// result is not taken for forged, whatever the order of the feeds.
pub proof fn lemma_sealed_feed_is_not_forged(
    keys: Map<Seq<char>, Seq<u8>>,
    sealed: Seq<(FeedResultView, Seq<u8>)>,
    i: int,
)
    requires
        0 <= i < sealed.len(),
        forall|a: int, b: int|
            0 <= a < b < sealed.len() ==> (#[trigger] sealed[a]).0.name != (#[trigger] sealed[b]).0.name,
        vouches(sealed[i].1, sealed[i].0.average, sealed[i].0.signature),
    ensures
        registry_after(keys, sealed).contains_key(sealed[i].0.name),
        registry_after(keys, sealed)[sealed[i].0.name] == sealed[i].1,
        !(verdict_of(sealed[i].0, registry_after(keys, sealed)) is Forged),
    decreases sealed.len(),
{
    if i < sealed.len() - 1 {
        let earlier = sealed.drop_last();
        assert(earlier[i] == sealed[i]);
        assert forall|a: int, b: int| 0 <= a < b < earlier.len() implies (#[trigger] earlier[a]).0.name
            != (#[trigger] earlier[b]).0.name by {
            assert(earlier[a] == sealed[a]);
            assert(earlier[b] == sealed[b]);
        }
        lemma_sealed_feed_is_not_forged(keys, earlier, i);
        assert(sealed[i].0.name != sealed[sealed.len() - 1].0.name);
    }
}

} // verus!
