//! The frames that the engine publishes for monitoring.
//!
//! There are two topics:
//!   `BOOK/{venue}/{instrument}`, the top of an order book;
//!   `RISK/{venue}/{instrument}`, the risk figures and the state of the gates.
//! A message on the wire has exactly two frames: the topic, then the payload as
//! JSON.

use crate::messages::RiskGateCode;
use vstd::prelude::*;

verus! {

/// One price level of an order book.
#[derive(Debug, Clone, PartialEq, Eq)]
pub struct PriceLevel {
    /// Price in quote currency: units and scale.
    pub price_raw: i64,
    pub price_scale: u32,
    /// Quantity in base asset: units and scale.
    pub qty_raw: i64,
    pub qty_scale: u32,
    /// How many orders stand at this level.
    pub order_count: u32,
}

/// The top levels of an order book.
#[derive(Debug, Clone, PartialEq, Eq)]
pub struct BookFrame {
    pub venue: String,
    pub instrument: String,
    /// Bids, best price first.
    pub bids: Vec<PriceLevel>,
    /// Asks, best price first.
    pub asks: Vec<PriceLevel>,
    /// Sequence number, by which a subscriber notices a gap.
    pub sequence: u64,
    /// When the snapshot was taken, in nanoseconds since the Unix epoch.
    pub ts_ns: u64,
}

/// What one gate said.
#[derive(Debug, Clone, PartialEq, Eq)]
pub struct GateStatus {
    /// The number of the code on the wire.
    pub gate_code: i32,
    /// The name of the code on the wire.
    pub gate_name: String,
}

/// The risk figures of the portfolio and the state of the gates.
#[derive(Debug, Clone, PartialEq, Eq)]
pub struct RiskFrame {
    pub venue: String,
    pub instrument: String,
    /// Conditional variance, in decimal notation.
    pub garch_sigma_sq: String,
    /// When the variance was last updated.
    pub garch_last_ts_ns: u64,
    /// Drawdown: units and scale.
    pub drawdown_raw: i64,
    pub drawdown_scale: u32,
    /// One-day 99% value at risk: units and scale.
    pub var_1d_99_raw: i64,
    pub var_1d_99_scale: u32,
    /// Gross exposure: units and scale.
    pub gross_exposure_raw: i64,
    pub gross_exposure_scale: u32,
    /// Net exposure: units and scale.
    pub net_exposure_raw: i64,
    pub net_exposure_scale: u32,
    pub open_position_count: u32,
    /// All gates are open; advisory only, since every request is evaluated anew.
    pub all_gates_open: bool,
    /// What each gate said at the last evaluation.
    pub gates: Vec<GateStatus>,
    /// When the frame was made, in nanoseconds since the Unix epoch.
    pub ts_ns: u64,
    /// The request that gave rise to the frame; empty for a periodic one.
    pub request_id: String,
}

/// What the status of one gate stands for.
#[verifier::ext_equal]
pub struct GateStatusView {
    pub gate_code: i32,
    pub gate_name: Seq<char>,
}

impl View for GateStatus {
    type V = GateStatusView;

    open spec fn view(&self) -> GateStatusView {
        GateStatusView { gate_code: self.gate_code, gate_name: self.gate_name@ }
    }
}

/// What a set of published risk figures stands for.
#[verifier::ext_equal]
pub struct RiskFrameView {
    pub venue: Seq<char>,
    pub instrument: Seq<char>,
    pub garch_sigma_sq: Seq<char>,
    pub garch_last_ts_ns: u64,
    pub drawdown_raw: i64,
    pub drawdown_scale: u32,
    pub var_1d_99_raw: i64,
    pub var_1d_99_scale: u32,
    pub gross_exposure_raw: i64,
    pub gross_exposure_scale: u32,
    pub net_exposure_raw: i64,
    pub net_exposure_scale: u32,
    pub open_position_count: u32,
    pub all_gates_open: bool,
    pub gates: Seq<GateStatusView>,
    pub ts_ns: u64,
    pub request_id: Seq<char>,
}

impl View for RiskFrame {
    type V = RiskFrameView;

    open spec fn view(&self) -> RiskFrameView {
        RiskFrameView {
            venue: self.venue@,
            instrument: self.instrument@,
            garch_sigma_sq: self.garch_sigma_sq@,
            garch_last_ts_ns: self.garch_last_ts_ns,
            drawdown_raw: self.drawdown_raw,
            drawdown_scale: self.drawdown_scale,
            var_1d_99_raw: self.var_1d_99_raw,
            var_1d_99_scale: self.var_1d_99_scale,
            gross_exposure_raw: self.gross_exposure_raw,
            gross_exposure_scale: self.gross_exposure_scale,
            net_exposure_raw: self.net_exposure_raw,
            net_exposure_scale: self.net_exposure_scale,
            open_position_count: self.open_position_count,
            all_gates_open: self.all_gates_open,
            gates: gate_views(self.gates@),
            ts_ns: self.ts_ns,
            request_id: self.request_id@,
        }
    }
}

/// What a list of gate statuses stands for.
pub open spec fn gate_views(gates: Seq<GateStatus>) -> Seq<GateStatusView> {
    gates.map_values(|g: GateStatus| g@)
}

/// The number of the code of acceptance on the wire.
pub const ACCEPTED_GATE_CODE: i32 = 1;

/// The status of a gate that let a request through.
pub open spec fn accepted_gate() -> GateStatusView {
    GateStatusView {
        gate_code: ACCEPTED_GATE_CODE,
        gate_name: RiskGateCode::RiskGateAccepted.wire_name(),
    }
}

/// How many gates let a request through before the chain gave its code.
pub open spec fn gates_passed(code: RiskGateCode) -> int {
    match code {
        RiskGateCode::RiskGateRejectedSignalStale => 0,
        RiskGateCode::RiskGateRejectedMaxDrawdown => 1,
        RiskGateCode::RiskGateRejectedVarBreach => 2,
        RiskGateCode::RiskGateRejectedGarchVolatility => 3,
        RiskGateCode::RiskGateAccepted => 4,
    }
}

/// What the gates said that were asked of a request, given the code of the chain
/// and its number on the wire: those that let it through, then the one that
/// rejected it, if any did.
pub open spec fn gates_asked(code: RiskGateCode, number: i32) -> Seq<GateStatusView> {
    let passed: Seq<GateStatusView> = Seq::new(
        gates_passed(code) as nat,
        |i: int| accepted_gate(),
    );
    if code == RiskGateCode::RiskGateAccepted {
        passed
    } else {
        passed.push(GateStatusView { gate_code: number, gate_name: code.wire_name() })
    }
}

/// What the gates said that were asked of a request.
pub fn gate_statuses(code: RiskGateCode, number: i32) -> (r: Vec<GateStatus>)
    ensures
        gate_views(r@) == gates_asked(code, number),
{
    let passed: usize = match code {
        RiskGateCode::RiskGateRejectedSignalStale => 0,
        RiskGateCode::RiskGateRejectedMaxDrawdown => 1,
        RiskGateCode::RiskGateRejectedVarBreach => 2,
        RiskGateCode::RiskGateRejectedGarchVolatility => 3,
        RiskGateCode::RiskGateAccepted => 4,
    };
    let mut r: Vec<GateStatus> = Vec::new();
    let mut i: usize = 0;
    while i < passed
        invariant
            i <= passed,
            r@.len() == i,
            forall|j: int| 0 <= j < i ==> (#[trigger] r@[j])@ == accepted_gate(),
        decreases passed - i,
    {
        r.push(
            GateStatus {
                gate_code: ACCEPTED_GATE_CODE,
                gate_name: RiskGateCode::RiskGateAccepted.as_str_name().to_owned(),
            },
        );
        i = i + 1;
    }
    if code != RiskGateCode::RiskGateAccepted {
        r.push(GateStatus { gate_code: number, gate_name: code.as_str_name().to_owned() });
    }
    assert(gate_views(r@) =~= gates_asked(code, number));
    r
}

/// Every gate of a list let the request through.
pub open spec fn all_open(gates: Seq<GateStatusView>) -> bool {
    forall|i: int| 0 <= i < gates.len() ==> (#[trigger] gates[i]).gate_code == ACCEPTED_GATE_CODE
}

/// Whether every gate of a list let the request through.
pub fn all_gates_open(gates: &Vec<GateStatus>) -> (r: bool)
    ensures
        r == all_open(gate_views(gates@)),
{
    let ghost views: Seq<GateStatusView> = gate_views(gates@);
    let mut i: usize = 0;
    while i < gates.len()
        invariant
            i <= gates@.len(),
            views == gate_views(gates@),
            forall|j: int| 0 <= j < i ==> (#[trigger] views[j]).gate_code == ACCEPTED_GATE_CODE,
        decreases gates@.len() - i,
    {
        assert(views[i as int] == gates@[i as int]@);
        if gates[i].gate_code != ACCEPTED_GATE_CODE {
            return false;
        }
        i = i + 1;
    }
    true
}

/// The text of a topic.
pub open spec fn topic_text(prefix: Seq<char>, venue: Seq<char>, instrument: Seq<char>) -> Seq<
    char,
> {
    prefix + venue + "/"@ + instrument
}

/// The bytes of the topic under which the order books of an instrument go.
pub open spec fn book_topic_bytes(venue: Seq<char>, instrument: Seq<char>) -> Seq<u8> {
    vstd::utf8::encode_utf8(topic_text("BOOK/"@, venue, instrument))
}

/// The bytes of the topic under which the risk figures of an instrument go.
pub open spec fn risk_topic_bytes(venue: Seq<char>, instrument: Seq<char>) -> Seq<u8> {
    vstd::utf8::encode_utf8(topic_text("RISK/"@, venue, instrument))
}

/// The bytes of a topic.
fn topic(prefix: &str, venue: &str, instrument: &str) -> (r: Vec<u8>)
    ensures
        r@ == vstd::utf8::encode_utf8(topic_text(prefix@, venue@, instrument@)),
{
    let mut text: String = prefix.to_owned();
    text.append(venue);
    text.append("/");
    text.append(instrument);
    text.as_str().as_bytes_vec()
}

/// The topic under which the order books of an instrument go.
pub fn book_topic(venue: &str, instrument: &str) -> (r: Vec<u8>)
    ensures
        r@ == book_topic_bytes(venue@, instrument@),
{
    topic("BOOK/", venue, instrument)
}

/// The topic under which the risk figures of an instrument go.
pub fn risk_topic(venue: &str, instrument: &str) -> (r: Vec<u8>)
    ensures
        r@ == risk_topic_bytes(venue@, instrument@),
{
    topic("RISK/", venue, instrument)
}

/// A message: the topic, then the payload, and nothing else.
fn message(topic: Vec<u8>, payload: Vec<u8>) -> (r: Vec<Vec<u8>>)
    ensures
        r@ == seq![topic, payload],
{
    let mut r: Vec<Vec<u8>> = Vec::new();
    r.push(topic);
    r.push(payload);
    assert(r@ =~= seq![topic, payload]);
    r
}

/// The frames that publish an order book, given its JSON.
pub fn book_message(venue: &str, instrument: &str, json: Vec<u8>) -> (r: Vec<Vec<u8>>)
    ensures
        r@.len() == 2,
        r@[0]@ == book_topic_bytes(venue@, instrument@),
        r@[1] == json,
{
    message(book_topic(venue, instrument), json)
}

/// The frames that publish risk figures, given their JSON.
pub fn risk_message(venue: &str, instrument: &str, json: Vec<u8>) -> (r: Vec<Vec<u8>>)
    ensures
        r@.len() == 2,
        r@[0]@ == risk_topic_bytes(venue@, instrument@),
        r@[1] == json,
{
    message(risk_topic(venue, instrument), json)
}

/// An order book and a set of risk figures never share a topic.
pub proof fn law_topics_are_apart(
    venue: Seq<char>,
    instrument: Seq<char>,
    other_venue: Seq<char>,
    other_instrument: Seq<char>,
)
    ensures
        book_topic_bytes(venue, instrument) != risk_topic_bytes(other_venue, other_instrument),
{
    let a: Seq<char> = topic_text("BOOK/"@, venue, instrument);
    let b: Seq<char> = topic_text("RISK/"@, other_venue, other_instrument);
    reveal_strlit("BOOK/");
    reveal_strlit("RISK/");
    assert(a[0] == 'B' && b[0] == 'R');
    vstd::utf8::encode_utf8_decode_utf8(a);
    vstd::utf8::encode_utf8_decode_utf8(b);
}

/// Where no venue has a slash in its name, a topic names one venue and one
/// instrument: two pairs that share a topic are the same pair.
pub proof fn law_topic_names_one_instrument(
    venue: Seq<char>,
    instrument: Seq<char>,
    other_venue: Seq<char>,
    other_instrument: Seq<char>,
)
    requires
        !venue.contains('/'),
        !other_venue.contains('/'),
        book_topic_bytes(venue, instrument) == book_topic_bytes(other_venue, other_instrument)
            || risk_topic_bytes(venue, instrument) == risk_topic_bytes(
            other_venue,
            other_instrument,
        ),
    ensures
        venue == other_venue,
        instrument == other_instrument,
{
    if book_topic_bytes(venue, instrument) == book_topic_bytes(other_venue, other_instrument) {
        lemma_topic_text("BOOK/"@, venue, instrument, other_venue, other_instrument);
    } else {
        lemma_topic_text("RISK/"@, venue, instrument, other_venue, other_instrument);
    }
}

proof fn lemma_topic_text(
    prefix: Seq<char>,
    venue: Seq<char>,
    instrument: Seq<char>,
    other_venue: Seq<char>,
    other_instrument: Seq<char>,
)
    requires
        !venue.contains('/'),
        !other_venue.contains('/'),
        vstd::utf8::encode_utf8(topic_text(prefix, venue, instrument)) == vstd::utf8::encode_utf8(
            topic_text(prefix, other_venue, other_instrument),
        ),
    ensures
        venue == other_venue,
        instrument == other_instrument,
{
    let a: Seq<char> = topic_text(prefix, venue, instrument);
    let b: Seq<char> = topic_text(prefix, other_venue, other_instrument);
    vstd::utf8::encode_utf8_decode_utf8(a);
    vstd::utf8::encode_utf8_decode_utf8(b);
    assert(a == b);
    reveal_strlit("/");
    let p: int = prefix.len() as int;
    let m: int = venue.len() as int;
    let n: int = other_venue.len() as int;
    assert(a[p + m] == '/' && b[p + n] == '/');
    if m < n {
        assert(b[p + m] == other_venue[m]);
    } else if n < m {
        assert(a[p + n] == venue[n]);
    }
    assert(a.subrange(p, p + m) =~= venue && b.subrange(p, p + n) =~= other_venue);
    assert(a.skip(p + m + 1) =~= instrument && b.skip(p + n + 1) =~= other_instrument);
}

/// All gates are open exactly after a request that the chain accepted, where the
/// number of a rejection is not that of acceptance.
pub proof fn law_open_exactly_where_accepted(code: RiskGateCode, number: i32)
    requires
        code != RiskGateCode::RiskGateAccepted ==> number != ACCEPTED_GATE_CODE,
    ensures
        all_open(gates_asked(code, number)) <==> code == RiskGateCode::RiskGateAccepted,
{
    let gates: Seq<GateStatusView> = gates_asked(code, number);
    if code != RiskGateCode::RiskGateAccepted {
        assert(gates[gates.len() - 1].gate_code == number);
    }
}

/// The topics read `BOOK/{venue}/{instrument}` and `RISK/{venue}/{instrument}` in
/// UTF-8, and a message is its topic and its payload.
pub proof fn law_messages_carry_topic_and_payload(
    venue: &str,
    instrument: &str,
    json: Vec<u8>,
    book_name: Vec<u8>,
    risk_name: Vec<u8>,
    book: Vec<Vec<u8>>,
    risk: Vec<Vec<u8>>,
)
    requires
        call_ensures(book_topic, (venue, instrument), book_name),
        call_ensures(risk_topic, (venue, instrument), risk_name),
        call_ensures(book_message, (venue, instrument, json), book),
        call_ensures(risk_message, (venue, instrument, json), risk),
    ensures
        vstd::utf8::decode_utf8(book_name@) == seq!['B', 'O', 'O', 'K', '/'] + venue@ + seq!['/']
            + instrument@,
        vstd::utf8::decode_utf8(risk_name@) == seq!['R', 'I', 'S', 'K', '/'] + venue@ + seq!['/']
            + instrument@,
        book@.len() == 2 && book@[0]@ == book_name@ && book@[1] == json,
        risk@.len() == 2 && risk@[0]@ == risk_name@ && risk@[1] == json,
{
    reveal_strlit("BOOK/");
    reveal_strlit("RISK/");
    reveal_strlit("/");
    assert("BOOK/"@ =~= seq!['B', 'O', 'O', 'K', '/']);
    assert("RISK/"@ =~= seq!['R', 'I', 'S', 'K', '/']);
    assert("/"@ =~= seq!['/']);
    vstd::utf8::encode_utf8_decode_utf8(topic_text("BOOK/"@, venue@, instrument@));
    vstd::utf8::encode_utf8_decode_utf8(topic_text("RISK/"@, venue@, instrument@));
}

/// The gates are listed in their order up to the one that rejected: those before
/// it with the number and the name of acceptance, it with its own; four of them
/// where all accepted.
pub proof fn law_gates_are_listed_in_order(
    code: RiskGateCode,
    number: i32,
    gates: Vec<GateStatus>,
)
    requires
        call_ensures(gate_statuses, (code, number), gates),
    ensures
        ({
            let place: int = if code == RiskGateCode::RiskGateRejectedSignalStale {
                0
            } else if code == RiskGateCode::RiskGateRejectedMaxDrawdown {
                1
            } else if code == RiskGateCode::RiskGateRejectedVarBreach {
                2
            } else if code == RiskGateCode::RiskGateRejectedGarchVolatility {
                3
            } else {
                4
            };
            &&& gates@.len() == if place < 4 {
                place + 1
            } else {
                4
            }
            &&& forall|i: int|
                0 <= i < place ==> (#[trigger] gates@[i]).gate_code == 1 && gates@[i].gate_name@
                    == "RISK_GATE_ACCEPTED"@
            &&& place < 4 ==> gates@[place].gate_code == number && gates@[place].gate_name@
                == code.wire_name()
        }),
{
    let views: Seq<GateStatusView> = gate_views(gates@);
    assert(views == gates_asked(code, number));
    assert(gates@.len() == views.len());
    assert forall|i: int|
        0 <= i < gates_passed(code) implies (#[trigger] gates@[i]).gate_code == 1
        && gates@[i].gate_name@ == "RISK_GATE_ACCEPTED"@ by {
        assert(gates@[i]@ == views[i]);
    }
    let last: int = gates_passed(code);
    if last < 4 {
        assert(gates@[last]@ == views[last]);
    }
}

/// All gates of a list are open exactly where each has the number of acceptance.
pub proof fn law_all_open_means_each(gates: Vec<GateStatus>, open: bool)
    requires
        call_ensures(all_gates_open, (&gates,), open),
    ensures
        open <==> forall|i: int| 0 <= i < gates@.len() ==> (#[trigger] gates@[i]).gate_code == 1,
{
    let views: Seq<GateStatusView> = gate_views(gates@);
    if open {
        assert forall|i: int| 0 <= i < gates@.len() implies (#[trigger] gates@[i]).gate_code
            == 1 by {
            assert(views[i].gate_code == ACCEPTED_GATE_CODE);
            assert(gates@[i]@ == views[i]);
        }
    } else {
        let i: int = choose|i: int|
            0 <= i < views.len() && (#[trigger] views[i]).gate_code != ACCEPTED_GATE_CODE;
        assert(gates@[i]@ == views[i]);
    }
}

} // verus!
