use crate::average_btcusd::{verdict_of, vouches, FeedResult, WebSocket, WebSocketView};
use crate::command::Window;
use crate::counter::Counter;
use crate::key_counter::{
    ecdsa_signature, generate_key_pair, sign_message, verifying_key_bytes, KeyCounter, SigningKey,
    VerifyingKey,
};
use crate::price::{is_zero, price_text, render, zero_bits};
use vstd::prelude::*;
use vstd::string::StringExecFns;
use vstd::utf8::encode_utf8;

verus! {

/// Where the listener of one feed stands.
#[derive(Clone, Copy, Debug, PartialEq, Eq, Structural)]
pub enum Phase {
    /// Opening the connection.
    Connecting,
    /// Sending the subscribe text.
    Subscribing,
    /// Reading frames while the window runs.
    Collecting,
    /// Sending the close frame.
    Closing,
    /// Writing down what the window held.
    Reporting,
    /// Signing the average and registering the key.
    Sealing,
    /// The feed has handed back its result.
    Finished,
    /// A step failed; the feed hands back nothing.
    Failed,
}

/// What the caller is asked to do next.
#[derive(Clone, Debug, PartialEq, Eq)]
pub enum Action {
    /// Open a connection to this endpoint.
    Connect(String),
    /// Send this text frame.
    Subscribe(String),
    /// Read frames into the feed's accumulator for this many seconds.
    Collect(u64),
    /// Send the close frame.
    Close,
    /// Take the average and store the feed's report.
    Report,
    /// Seal the average.
    Seal,
    /// Nothing is left to do.
    Stop,
}

/// `Action` as plain values.
pub enum ActionView {
    Connect(Seq<char>),
    Subscribe(Seq<char>),
    Collect(u64),
    Close,
    Report,
    Seal,
    Stop,
}

impl View for Action {
    type V = ActionView;

    open spec fn view(&self) -> ActionView {
        match *self {
            Action::Connect(url) => ActionView::Connect(url@),
            Action::Subscribe(text) => ActionView::Subscribe(text@),
            Action::Collect(seconds) => ActionView::Collect(seconds),
            Action::Close => ActionView::Close,
            Action::Report => ActionView::Report,
            Action::Seal => ActionView::Seal,
            Action::Stop => ActionView::Stop,
        }
    }
}

impl Phase {
    /// A listener that has finished or failed stays where it is.
    pub open spec fn terminal(self) -> bool {
        self is Finished || self is Failed
    }

    /// How far along a phase is.
    pub open spec fn rank(self) -> nat {
        match self {
            Phase::Connecting => 0,
            Phase::Subscribing => 1,
            Phase::Collecting => 2,
            Phase::Closing => 3,
            Phase::Reporting => 4,
            Phase::Sealing => 5,
            Phase::Finished => 6,
            Phase::Failed => 6,
        }
    }

    pub fn is_terminal(self) -> (terminal: bool)
        ensures
            terminal == self.terminal(),
    {
        match self {
            Phase::Finished => true,
            Phase::Failed => true,
            _ => false,
        }
    }
}

/// A listener starts by connecting to the feed's endpoint.
pub open spec fn begin_spec(config: WebSocketView) -> (Phase, ActionView) {
    (Phase::Connecting, ActionView::Connect(config.ws_url))
}

/// The step that follows when the last action succeeded or failed. A
/// failure ends the listener. The subscribe text goes out right after the
/// connection stands, and only where the feed has one.
pub open spec fn advance_spec(
    config: WebSocketView,
    seconds: u64,
    phase: Phase,
    succeeded: bool,
) -> (Phase, ActionView) {
    if phase.terminal() {
        (phase, ActionView::Stop)
    } else if !succeeded {
        (Phase::Failed, ActionView::Stop)
    } else {
        match phase {
            Phase::Connecting => match config.msg {
                Some(text) => (Phase::Subscribing, ActionView::Subscribe(text)),
                None => (Phase::Collecting, ActionView::Collect(seconds)),
            },
            Phase::Subscribing => (Phase::Collecting, ActionView::Collect(seconds)),
            Phase::Collecting => (Phase::Closing, ActionView::Close),
            Phase::Closing => (Phase::Reporting, ActionView::Report),
            Phase::Reporting => (Phase::Sealing, ActionView::Seal),
            _ => (Phase::Finished, ActionView::Stop),
        }
    }
}

/// The first step of a feed's listener.
pub fn begin(config: &WebSocket) -> (next: (Phase, Action))
    ensures
        (next.0, next.1@) == begin_spec(config@),
{
    (Phase::Connecting, Action::Connect(config.ws_url().clone()))
}

/// The next step of a feed's listener, given how the last action ended.
pub fn advance(config: &WebSocket, window: &Window, phase: Phase, succeeded: bool) -> (next: (
    Phase,
    Action,
))
    ensures
        (next.0, next.1@) == advance_spec(config@, window@, phase, succeeded),
        next.1 matches Action::Collect(seconds) ==> seconds > 0,
{
    if phase.is_terminal() {
        (phase, Action::Stop)
    } else if !succeeded {
        (Phase::Failed, Action::Stop)
    } else {
        match phase {
            Phase::Connecting => match config.msg() {
                Some(text) => (Phase::Subscribing, Action::Subscribe(text.clone())),
                None => (Phase::Collecting, Action::Collect(window.seconds())),
            },
            Phase::Subscribing => (Phase::Collecting, Action::Collect(window.seconds())),
            Phase::Collecting => (Phase::Closing, Action::Close),
            Phase::Closing => (Phase::Reporting, Action::Report),
            Phase::Reporting => (Phase::Sealing, Action::Seal),
            _ => (Phase::Finished, Action::Stop),
        }
    }
}

/// Where a listener stands, and what it asked for last, once it has been
/// told how its first `outcomes.len()` actions ended.
pub open spec fn run(config: WebSocketView, seconds: u64, outcomes: Seq<bool>) -> (Phase, ActionView)
    decreases outcomes.len(),
{
    if outcomes.len() == 0 {
        begin_spec(config)
    } else {
        advance_spec(config, seconds, run(config, seconds, outcomes.drop_last()).0, outcomes.last())
    }
}

/// Two actions are of one kind when they differ at most in what they carry.
pub open spec fn same_kind(left: ActionView, right: ActionView) -> bool {
    match (left, right) {
        (ActionView::Connect(_), ActionView::Connect(_)) => true,
        (ActionView::Subscribe(_), ActionView::Subscribe(_)) => true,
        (ActionView::Collect(_), ActionView::Collect(_)) => true,
        (ActionView::Close, ActionView::Close) => true,
        (ActionView::Report, ActionView::Report) => true,
        (ActionView::Seal, ActionView::Seal) => true,
        (ActionView::Stop, ActionView::Stop) => true,
        _ => false,
    }
}

/// A listener never moves backwards.
pub proof fn lemma_run_advances(
    config: WebSocketView,
    seconds: u64,
    outcomes: Seq<bool>,
    i: int,
    j: int,
)
    requires
        0 <= i <= j <= outcomes.len(),
    ensures
        run(config, seconds, outcomes.take(i)).0.rank() <= run(
            config,
            seconds,
            outcomes.take(j),
        ).0.rank(),
    decreases j - i,
{
    if i < j {
        lemma_run_advances(config, seconds, outcomes, i, j - 1);
        assert(outcomes.take(j).drop_last() =~= outcomes.take(j - 1));
    }
}

/// Whatever the outcomes, a listener asks for each kind of action at most
/// once: it connects once, sends at most one subscribe text and at most one
/// close frame, and seals at most once. Only `Stop` is repeated.
pub proof fn lemma_each_action_once(
    config: WebSocketView,
    seconds: u64,
    outcomes: Seq<bool>,
    i: int,
    j: int,
)
    requires
        0 <= i < j <= outcomes.len(),
        same_kind(
            run(config, seconds, outcomes.take(i)).1,
            run(config, seconds, outcomes.take(j)).1,
        ),
    ensures
        run(config, seconds, outcomes.take(j)).1 is Stop,
{
    lemma_run_advances(config, seconds, outcomes, i, j - 1);
    assert(outcomes.take(j).drop_last() =~= outcomes.take(j - 1));
    if i > 0 {
        assert(outcomes.take(i).drop_last() =~= outcomes.take(i - 1));
    }
}

/// A listener whose every action succeeds connects, subscribes where the
/// feed has a subscribe text, collects for the window, closes, reports and
/// seals, in this order, and then has finished.
pub proof fn lemma_run_of_successes(config: WebSocketView, seconds: u64, outcomes: Seq<bool>)
    requires
        forall|i: int| 0 <= i < outcomes.len() ==> outcomes[i],
    ensures
        ({
            let step = if config.msg is Some || outcomes.len() == 0 {
                outcomes.len()
            } else {
                outcomes.len() + 1
            };
            run(config, seconds, outcomes) == (if step == 0 {
                (Phase::Connecting, ActionView::Connect(config.ws_url))
            } else if step == 1 {
                (Phase::Subscribing, ActionView::Subscribe(config.msg->0))
            } else if step == 2 {
                (Phase::Collecting, ActionView::Collect(seconds))
            } else if step == 3 {
                (Phase::Closing, ActionView::Close)
            } else if step == 4 {
                (Phase::Reporting, ActionView::Report)
            } else if step == 5 {
                (Phase::Sealing, ActionView::Seal)
            } else {
                (Phase::Finished, ActionView::Stop)
            })
        }),
    decreases outcomes.len(),
{
    if outcomes.len() > 0 {
        let earlier = outcomes.drop_last();
        assert forall|i: int| 0 <= i < earlier.len() implies earlier[i] by {
            assert(earlier[i] == outcomes[i]);
        }
        lemma_run_of_successes(config, seconds, earlier);
    }
}

/// A failure ends the listener on the spot: whatever follows, it has come to
/// rest and asks for nothing more, and it has finished only if it had
/// finished before the failure.
pub proof fn lemma_failure_is_final(config: WebSocketView, seconds: u64, outcomes: Seq<bool>, i: int)
    requires
        0 <= i < outcomes.len(),
        !outcomes[i],
    ensures
        run(config, seconds, outcomes).0.terminal(),
        run(config, seconds, outcomes).0 is Finished ==> run(
            config,
            seconds,
            outcomes.take(i),
        ).0 is Finished,
        run(config, seconds, outcomes).1 is Stop,
    decreases outcomes.len(),
{
    if i == outcomes.len() - 1 {
        assert(outcomes.take(i) =~= outcomes.drop_last());
    } else {
        let earlier = outcomes.drop_last();
        assert(earlier[i] == outcomes[i]);
        assert(earlier.take(i) =~= outcomes.take(i));
        lemma_failure_is_final(config, seconds, earlier, i);
    }
}

/// Where the report of the feed `exchange` is kept.
pub fn report_path(exchange: &str) -> (path: String)
    ensures
        path@ == "result_data/"@ + exchange@ + "_result_and_data_points.txt"@,
{
    let mut path = "result_data/".to_owned();
    path.append(exchange);
    path.append("_result_and_data_points.txt");
    path
}

/// The report of one window: the average as it is shown to a reader, then
/// the messages it was taken from.
pub fn report_text(average: &str, data: &str) -> (text: String)
    ensures
        text@ == "average "@ + average@ + "\nData points: \n"@ + data@,
{
    let mut text = "average ".to_owned();
    text.append(average);
    text.append("\nData points: \n");
    text.append(data);
    text
}

/// What sealing leaves in the run-wide summary: a window without data adds
/// nothing to it.
pub open spec fn summary_after(
    summary: Seq<(u64, Seq<char>)>,
    bits: u64,
    data: Seq<char>,
) -> Seq<(u64, Seq<char>)> {
    if zero_bits(bits) {
        summary
    } else {
        summary.push((bits, data))
    }
}

/// Enters the average of a window, with the messages it was taken from, in
/// the run-wide summary, unless the window held no data.
pub fn enter_summary(summary: &mut Counter, average: u64, data: String)
    ensures
        final(summary)@ == summary_after(old(summary)@, average, data@),
{
    if !is_zero(average) {
        summary.add_price(average, data);
    }
}

/// A feed's signed average, together with the verifying key of the pair
/// that signed it. The signature holds under that key.
pub struct Sealed {
    result: FeedResult,
    key: VerifyingKey,
}

impl Sealed {
    #[verifier::type_invariant]
    spec fn signature_holds(self) -> bool {
        vouches(self.key@, self.result.average, self.result.signature@)
    }

    /// The signed result.
    pub closed spec fn result(self) -> FeedResult {
        self.result
    }

    /// The encoding of the key that the signature holds under.
    pub closed spec fn key(self) -> Seq<u8> {
        self.key@
    }

    pub fn feed_result(&self) -> (result: &FeedResult)
        ensures
            *result == self.result(),
            vouches(self.key(), result.average, result.signature@),
    {
        proof {
            use_type_invariant(self);
        }
        &self.result
    }

    pub fn verifying_key(&self) -> (key: &VerifyingKey)
        ensures
            key@ == self.key(),
    {
        &self.key
    }
}

/// What sealing the average of the feed `name` under the secret `secret`
/// comes to: where the secret signs the text of the average, the result
/// holds the name, the average and that signature, and the key is the
/// verifying key of the secret; where it does not sign, there is no result.
pub open spec fn sealed_under(
    secret: Seq<u8>,
    name: Seq<char>,
    average: u64,
    sealed: Option<Sealed>,
) -> bool {
    match sealed {
        Some(sealed) => {
            &&& ecdsa_signature(secret, encode_utf8(price_text(average))) == Some(
                sealed.result().signature@,
            )
            &&& sealed.result().name@ == name
            &&& sealed.result().average == average
            &&& sealed.key() == verifying_key_bytes(secret)
        },
        None => ecdsa_signature(secret, encode_utf8(price_text(average))) is None,
    }
}

/// Signs the text of the average of the feed `name` with the secret half of
/// `pair`. Where no signature can be made, the feed has no result.
pub fn seal_with(name: String, average: u64, pair: (SigningKey, VerifyingKey)) -> (sealed: Option<
    Sealed,
>)
    requires
        pair.1@ == verifying_key_bytes(pair.0@),
    ensures
        sealed_under(pair.0@, name@, average, sealed),
{
    let (private_key, public_key) = pair;
    let text = render(average);
    match sign_message(&private_key, text.as_str()) {
        Some(signature) => Some(
            Sealed { result: FeedResult { name, average, signature }, key: public_key },
        ),
        None => None,
    }
}

/// Signs the text of the average of the feed `name` with a fresh key pair.
/// The secret half signs this one average and is dropped. Whichever secret
/// was drawn, what comes back is what sealing under that secret comes to:
/// a result carries this name, this average and the signature of that
/// secret over the text of the average, beside the verifying key of that
/// secret; no result means that that secret made no signature.
pub fn seal_average(name: String, average: u64) -> (sealed: Option<Sealed>)
    ensures
        exists|secret: Seq<u8>| #[trigger] sealed_under(secret, name@, average, sealed),
        sealed matches Some(sealed) ==> sealed.result().name@ == name@ && sealed.result().average
            == average,
{
    let pair = generate_key_pair();
    let ghost secret = pair.0@;
    let sealed = seal_with(name, average, pair);
    assert(sealed_under(secret, name@, average, sealed));
    sealed
}

/// Registers the key of a sealed average under the name of its feed and
/// hands out the result. The result passes the check against the registry
/// as it then stands.
pub fn register(registry: &mut KeyCounter, sealed: Sealed) -> (result: FeedResult)
    ensures
        result == sealed.result(),
        final(registry)@ == old(registry)@.insert(result.name@, sealed.key()),
        !(verdict_of(result@, final(registry)@) is Forged),
{
    proof {
        use_type_invariant(&sealed);
    }
    let Sealed { result, key } = sealed;
    registry.insert(result.name.clone(), key);
    result
}

/// What a JSON pointer finds in a message.
#[derive(Clone, Debug, PartialEq, Eq)]
pub enum Resolved {
    /// The message is not a JSON document.
    Malformed,
    /// The document holds no value at the pointer.
    Missing,
    Null,
    Bool(bool),
    /// A number, by its literal.
    Number(String),
    /// A string, by its content.
    Text(String),
    Array,
    Object,
}

/// `Resolved` as plain values.
pub enum ResolvedView {
    Malformed,
    Missing,
    Null,
    Bool(bool),
    Number(Seq<char>),
    Text(Seq<char>),
    Array,
    Object,
}

impl View for Resolved {
    type V = ResolvedView;

    open spec fn view(&self) -> ResolvedView {
        match *self {
            Resolved::Malformed => ResolvedView::Malformed,
            Resolved::Missing => ResolvedView::Missing,
            Resolved::Null => ResolvedView::Null,
            Resolved::Bool(value) => ResolvedView::Bool(value),
            Resolved::Number(literal) => ResolvedView::Number(literal@),
            Resolved::Text(content) => ResolvedView::Text(content@),
            Resolved::Array => ResolvedView::Array,
            Resolved::Object => ResolvedView::Object,
        }
    }
}

/// What `serde_json` finds at `pointer` in the document that it parses from
/// `text`.
pub uninterp spec fn json_resolve(text: Seq<char>, pointer: Seq<char>) -> ResolvedView;

/// Parses `text` with `serde_json::from_str` and looks `pointer` up with
/// `Value::pointer`. A number is handed back by the literal that
/// `serde_json` prints for it, a string by its content, any other value by
/// its kind. Trusted: the result is a function of the two texts.
#[verifier::external_body]
fn resolve(text: &str, pointer: &str) -> (found: Resolved)
    ensures
        found@ == json_resolve(text@, pointer@),
{
    match serde_json::from_str::<serde_json::Value>(text) {
        Err(_) => Resolved::Malformed,
        Ok(document) => match document.pointer(pointer) {
            None => Resolved::Missing,
            Some(serde_json::Value::Null) => Resolved::Null,
            Some(serde_json::Value::Bool(value)) => Resolved::Bool(*value),
            Some(serde_json::Value::Number(number)) => Resolved::Number(number.to_string()),
            Some(serde_json::Value::String(content)) => Resolved::Text(content.clone()),
            Some(serde_json::Value::Array(_)) => Resolved::Array,
            Some(serde_json::Value::Object(_)) => Resolved::Object,
        },
    }
}

/// What one message yields for the accumulator.
#[derive(Clone, Debug, PartialEq, Eq)]
pub enum Extraction {
    /// The pointer found a number; the price is its value.
    Numeric(String),
    /// The pointer found a string; it is a price where it reads as a decimal.
    Textual(String),
    /// The message is not JSON.
    ParseFailure,
    /// The pointer found nothing.
    MissingPath,
    /// The pointer found a value that is neither a number nor a string.
    Unsupported,
}

/// `Extraction` as plain values.
pub enum ExtractionView {
    Numeric(Seq<char>),
    Textual(Seq<char>),
    ParseFailure,
    MissingPath,
    Unsupported,
}

impl View for Extraction {
    type V = ExtractionView;

    open spec fn view(&self) -> ExtractionView {
        match *self {
            Extraction::Numeric(literal) => ExtractionView::Numeric(literal@),
            Extraction::Textual(content) => ExtractionView::Textual(content@),
            Extraction::ParseFailure => ExtractionView::ParseFailure,
            Extraction::MissingPath => ExtractionView::MissingPath,
            Extraction::Unsupported => ExtractionView::Unsupported,
        }
    }
}

/// Numbers and strings are candidates for a price; everything else is
/// passed over, each with its reason.
pub open spec fn extraction_of(found: ResolvedView) -> ExtractionView {
    match found {
        ResolvedView::Malformed => ExtractionView::ParseFailure,
        ResolvedView::Missing => ExtractionView::MissingPath,
        ResolvedView::Number(literal) => ExtractionView::Numeric(literal),
        ResolvedView::Text(content) => ExtractionView::Textual(content),
        _ => ExtractionView::Unsupported,
    }
}

/// The text that may hold a price, where there is one.
pub open spec fn candidate_of(extraction: ExtractionView) -> Option<Seq<char>> {
    match extraction {
        ExtractionView::Numeric(literal) => Some(literal),
        ExtractionView::Textual(content) => Some(content),
        _ => None,
    }
}

impl Extraction {
    /// The text to read the price from. `None` means that the message adds
    /// no sample.
    pub fn candidate(&self) -> (text: Option<&String>)
        ensures
            match text {
                Some(found) => candidate_of(self@) == Some(found@),
                None => candidate_of(self@) is None,
            },
    {
        match self {
            Extraction::Numeric(literal) => Some(literal),
            Extraction::Textual(content) => Some(content),
            _ => None,
        }
    }
}

/// Decides what a resolved value yields.
pub fn classify(found: Resolved) -> (extraction: Extraction)
    ensures
        extraction@ == extraction_of(found@),
{
    match found {
        Resolved::Malformed => Extraction::ParseFailure,
        Resolved::Missing => Extraction::MissingPath,
        Resolved::Number(literal) => Extraction::Numeric(literal),
        Resolved::Text(content) => Extraction::Textual(content),
        _ => Extraction::Unsupported,
    }
}

/// Handles one text frame of a feed: parses it, follows `pointer`, and says
/// what the frame yields. No frame makes it fail.
pub fn extract_price(text: &str, pointer: &str) -> (extraction: Extraction)
    ensures
        extraction@ == extraction_of(json_resolve(text@, pointer@)),
{
    classify(resolve(text, pointer))
}

} // verus!
