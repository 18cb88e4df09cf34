//! The library's model of decoded SML telemetry data, and the extraction of
//! the two consumption fields from it.
//!
//! A decoded message is relevant only when it is a list response: an ordered
//! sequence of measurement entries, each addressed by a fixed six-byte object
//! identifier (OBIS code) and carrying a tagged value with an optional signed
//! decimal scaler.  Extraction locates the instantaneous-power entry and the
//! cumulative-energy entry by exact identifier equality and converts both
//! exactly; if either is missing or not numeric, no snapshot is produced.

use vstd::prelude::*;

use crate::decimal::pow10;
use crate::decimal::Dec;

verus! {

/// A tagged value carried by a measurement entry: one of several fixed-width
/// integer representations, or a non-numeric payload.
#[derive(Debug, Clone)]
pub enum SmlValue {
    Bool(bool),
    Bytes(Vec<u8>),
    List,
    I8(i8),
    I16(i16),
    I32(i32),
    I64(i64),
    U8(u8),
    U16(u16),
    U32(u32),
    U64(u64),
}

/// Whether the tagged value is one of the numeric representations.
pub open spec fn is_numeric(v: SmlValue) -> bool {
    match v {
        SmlValue::Bool(_) => false,
        SmlValue::Bytes(_) => false,
        SmlValue::List => false,
        _ => true,
    }
}

/// The integer a numeric tagged value holds (zero for the others, which are
/// never converted).
pub open spec fn numeric_value(v: SmlValue) -> int {
    match v {
        SmlValue::I8(x) => x as int,
        SmlValue::I16(x) => x as int,
        SmlValue::I32(x) => x as int,
        SmlValue::I64(x) => x as int,
        SmlValue::U8(x) => x as int,
        SmlValue::U16(x) => x as int,
        SmlValue::U32(x) => x as int,
        SmlValue::U64(x) => x as int,
        _ => 0,
    }
}

/// One measurement entry of a list response.
#[derive(Debug, Clone)]
pub struct SmlListEntry {
    /// The six-byte object identifier addressing the measured quantity.
    pub obj_name: Vec<u8>,
    /// The tagged reading.
    pub value: SmlValue,
    /// The signed decimal exponent of the reading, absent meaning zero.
    pub scaler: Option<i8>,
}

/// The list-response body: an ordered sequence of measurement entries.
#[derive(Debug, Clone)]
pub struct GetListResponse {
    pub val_list: Vec<SmlListEntry>,
}

/// A decoded message.  Only the list-response variant carries measurements;
/// every other message body is uniformly irrelevant to extraction.
#[derive(Debug, Clone)]
pub enum SmlMessage {
    ListResponse(GetListResponse),
    Other,
}

/// The snapshot extracted from one message: instantaneous power in watts and
/// cumulative energy in watt-hours, both exact.
#[derive(Debug, Clone, Copy, PartialEq, Eq, Structural)]
pub struct ConsumptionData {
    pub current_power_w: Dec,
    pub total_consumption_wh: Dec,
}

impl ConsumptionData {
    pub open spec fn wf(self) -> bool {
        self.current_power_w.wf() && self.total_consumption_wh.wf()
    }

    /// Runtime check of `wf`, for callers outside the verified world.
    pub fn is_wf(&self) -> (b: bool)
        ensures
            b == self.wf(),
    {
        self.current_power_w.is_wf() && self.total_consumption_wh.is_wf()
    }
}

/// What converting a tagged value yields: its integer with exponent zero when
/// numeric, nothing otherwise.
pub open spec fn value_to_dec_spec(v: SmlValue) -> Option<Dec> {
    if is_numeric(v) {
        Some(Dec { mantissa: numeric_value(v) as i128, exp: 0 })
    } else {
        None
    }
}

/// The scaler an entry carries, zero when absent.
pub open spec fn scaler_or_zero(s: Option<i8>) -> i8 {
    match s {
        Some(e) => e,
        None => 0,
    }
}

/// What converting an entry's reading with its scaler yields.
pub open spec fn scaled_value_spec(e: SmlListEntry) -> Option<Dec> {
    match value_to_dec_spec(e.value) {
        Some(d) => Some(Dec { mantissa: d.mantissa, exp: scaler_or_zero(e.scaler) }),
        None => None,
    }
}

/// The first entry whose identifier equals `obis` byte for byte, in list
/// order; nothing when no identifier matches.
pub open spec fn find_by_obis_spec(entries: Seq<SmlListEntry>, obis: Seq<u8>) -> Option<
    SmlListEntry,
>
    decreases entries.len(),
{
    if entries.len() == 0 {
        None
    } else if entries[0].obj_name@ == obis {
        Some(entries[0])
    } else {
        find_by_obis_spec(entries.drop_first(), obis)
    }
}

/// Converts a tagged value into an exact decimal; non-numeric values are not
/// convertible.
pub fn sml_value_to_decimal(val: &SmlValue) -> (r: Option<Dec>)
    ensures
        r == value_to_dec_spec(*val),
{
    match val {
        SmlValue::Bool(_) => None,
        SmlValue::Bytes(_) => None,
        SmlValue::List => None,
        SmlValue::I8(v) => Some(Dec::new(*v as i128, 0)),
        SmlValue::I16(v) => Some(Dec::new(*v as i128, 0)),
        SmlValue::I32(v) => Some(Dec::new(*v as i128, 0)),
        SmlValue::I64(v) => Some(Dec::new(*v as i128, 0)),
        SmlValue::U8(v) => Some(Dec::new(*v as i128, 0)),
        SmlValue::U16(v) => Some(Dec::new(*v as i128, 0)),
        SmlValue::U32(v) => Some(Dec::new(*v as i128, 0)),
        SmlValue::U64(v) => Some(Dec::new(*v as i128, 0)),
    }
}

/// Converts an entry's reading and applies its scaler, exactly.
pub fn get_scaled_value(entry: &SmlListEntry) -> (r: Option<Dec>)
    ensures
        r == scaled_value_spec(*entry),
        r matches Some(d) ==> d.wf(),
{
    match sml_value_to_decimal(&entry.value) {
        Some(d) => {
            let e: i8 = match entry.scaler {
                Some(s) => s,
                None => 0,
            };
            Some(Dec::new(d.mantissa, e))
        },
        None => None,
    }
}

/// Byte-for-byte equality of two identifier slices.
fn bytes_equal(a: &[u8], b: &[u8]) -> (r: bool)
    ensures
        r == (a@ =~= b@),
{
    if a.len() != b.len() {
        return false;
    }
    let n = a.len();
    let mut i: usize = 0;
    while i < n
        invariant
            i <= n,
            n == a@.len() == b@.len(),
            forall|j: int| 0 <= j < i ==> a@[j] == b@[j],
        decreases n - i,
    {
        if a[i] != b[i] {
            return false;
        }
        i = i + 1;
    }
    true
}

/// Finds the first entry whose identifier matches `obis` exactly; `None` when
/// no identifier matches.  No partial or prefix matching, no assumption of
/// sortedness.
pub fn find_by_obis<'a>(list: &'a GetListResponse, obis: &[u8]) -> (r: Option<&'a SmlListEntry>)
    ensures
        match r {
            Some(e) => find_by_obis_spec(list.val_list@, obis@) == Some(*e),
            None => find_by_obis_spec(list.val_list@, obis@) is None,
        },
{
    let ghost entries = list.val_list@;
    let n = list.val_list.len();
    let mut i: usize = 0;
    proof {
        assert(entries.skip(0) =~= entries);
    }
    while i < n
        invariant
            i <= n,
            n == entries.len(),
            entries == list.val_list@,
            find_by_obis_spec(entries, obis@) == find_by_obis_spec(entries.skip(i as int), obis@),
        decreases n - i,
    {
        if bytes_equal(list.val_list[i].obj_name.as_slice(), obis) {
            proof {
                assert(entries.skip(i as int)[0] == entries[i as int]);
            }
            return Some(&list.val_list[i]);
        }
        proof {
            assert(entries.skip(i as int)[0] == entries[i as int]);
            assert(entries.skip(i as int).drop_first() =~= entries.skip(i + 1));
        }
        i = i + 1;
    }
    proof {
        assert(entries.skip(n as int) =~= Seq::<SmlListEntry>::empty());
    }
    None
}

/// The well-known object identifier of the instantaneous-power entry.
pub open spec fn power_obis() -> Seq<u8> {
    seq![1u8, 0u8, 16u8, 7u8, 0u8, 255u8]
}

/// The well-known object identifier of the cumulative-active-energy entry.
pub open spec fn energy_obis() -> Seq<u8> {
    seq![1u8, 0u8, 1u8, 8u8, 0u8, 255u8]
}

/// What locating and converting the instantaneous-power entry yields.
pub open spec fn current_power_spec(entries: Seq<SmlListEntry>) -> Option<Dec> {
    match find_by_obis_spec(entries, power_obis()) {
        Some(e) => scaled_value_spec(e),
        None => None,
    }
}

/// What locating and converting the cumulative-energy entry yields.
pub open spec fn total_consumption_spec(entries: Seq<SmlListEntry>) -> Option<Dec> {
    match find_by_obis_spec(entries, energy_obis()) {
        Some(e) => scaled_value_spec(e),
        None => None,
    }
}

// See https://wiki.volkszaehler.org/software/obis for the identifiers.
/// The instantaneous power in watts, `1-0:16.7.0*255`.
pub fn get_current_power_in_watts(r: &GetListResponse) -> (o: Option<Dec>)
    ensures
        o == current_power_spec(r.val_list@),
        o matches Some(d) ==> d.wf(),
{
    let obis: [u8; 6] = [1, 0, 16, 7, 0, 255];
    proof {
        assert(obis@ =~= power_obis());
    }
    match find_by_obis(r, obis.as_slice()) {
        Some(e) => get_scaled_value(e),
        None => None,
    }
}

/// The cumulative active energy in watt-hours, `1-0:1.8.0*255`.
pub fn get_total_consumption_in_watt_hours(r: &GetListResponse) -> (o: Option<Dec>)
    ensures
        o == total_consumption_spec(r.val_list@),
        o matches Some(d) ==> d.wf(),
{
    let obis: [u8; 6] = [1, 0, 1, 8, 0, 255];
    proof {
        assert(obis@ =~= energy_obis());
    }
    match find_by_obis(r, obis.as_slice()) {
        Some(e) => get_scaled_value(e),
        None => None,
    }
}

/// What extracting from one message yields: a full snapshot when the message
/// is a list response holding both convertible entries, nothing otherwise.
pub open spec fn extract_spec(m: SmlMessage) -> Option<ConsumptionData> {
    match m {
        SmlMessage::ListResponse(r) => match (
            current_power_spec(r.val_list@),
            total_consumption_spec(r.val_list@),
        ) {
            (Some(p), Some(t)) => Some(
                ConsumptionData { current_power_w: p, total_consumption_wh: t },
            ),
            _ => None,
        },
        SmlMessage::Other => None,
    }
}

/// Attempts to extract a snapshot from one decoded message.  Pure and total:
/// a message of another variant, a missing entry or a non-numeric reading all
/// yield `None`, never a partial snapshot and never an error.
pub fn get_consumption_data(msg: &SmlMessage) -> (o: Option<ConsumptionData>)
    ensures
        o == extract_spec(*msg),
        o matches Some(c) ==> c.wf(),
{
    match msg {
        SmlMessage::ListResponse(r) => {
            let current_power = match get_current_power_in_watts(r) {
                Some(p) => p,
                None => {
                    return None;
                },
            };
            let total_consumption = match get_total_consumption_in_watt_hours(r) {
                Some(t) => t,
                None => {
                    return None;
                },
            };
            Some(
                ConsumptionData {
                    current_power_w: current_power,
                    total_consumption_wh: total_consumption,
                },
            )
        },
        SmlMessage::Other => None,
    }
}

/// Exactness of the converter: a numeric reading with its scaler converts to
/// a quantity exactly equal to `value * 10^scaler`, and a non-numeric reading
/// is not convertible at all.
pub proof fn lemma_converter_exact(e: SmlListEntry)
    ensures
        is_numeric(e.value) ==> (scaled_value_spec(e) matches Some(d) && d.wf() && d.represents(
            numeric_value(e.value),
            scaler_or_zero(e.scaler) as int,
        )),
        !is_numeric(e.value) ==> scaled_value_spec(e) is None,
{
    if is_numeric(e.value) {
        let d = scaled_value_spec(e)->Some_0;
        assert(pow10(0) == 1);
        assert(d.mantissa * pow10((d.exp - scaler_or_zero(e.scaler)) as nat) == d.mantissa * 1);
    }
}

/// All-or-nothing extraction: when either required entry is missing or not
/// convertible, the whole extraction yields nothing; no snapshot with one
/// field defaulted is ever produced.
pub proof fn lemma_all_or_nothing(r: GetListResponse)
    ensures
        current_power_spec(r.val_list@) is None || total_consumption_spec(r.val_list@) is None
            ==> extract_spec(SmlMessage::ListResponse(r)) is None,
{
}

} // verus!
