//! The fetch pipeline over one acquired payload: split the raw bytes into
//! transport frames, parse each frame into messages, and scan the messages
//! for a consumption snapshot.
//!
//! Frame decoding and message parsing are the decoder crate's work and stand
//! behind trusted items; the control flow around them is verified: the first
//! decode failure and the first parse failure each abort the whole pipeline,
//! the first message that yields a snapshot short-circuits it, and a payload
//! that yields none fails with a distinct no-consumption-data outcome.

use vstd::prelude::*;
use vstd::string::StringExecFns;

use sml_rs::parser::common::ListEntry as RawListEntry;
use sml_rs::parser::common::Value as RawValue;
use sml_rs::parser::complete::MessageBody as RawMessageBody;

use crate::sml::extract_spec;
use crate::sml::get_consumption_data;
use crate::sml::ConsumptionData;
use crate::sml::GetListResponse;
use crate::sml::SmlListEntry;
use crate::sml::SmlMessage;
use crate::sml::SmlValue;

verus! {

/// The classified failure of one fetch.  All variants are fatal for the
/// request; none is retried.
#[derive(Debug, Clone)]
pub enum FetchError {
    /// The byte stream could not be split into valid protocol frames.
    Decode(String),
    /// A frame was framed correctly but its internal structure was malformed.
    Parse(String),
    /// The payload decoded and parsed cleanly but no message yielded a
    /// snapshot: a configuration or device mismatch, not a transport fault.
    NoConsumptionData,
}

/// The spec-level image of a classified failure.
#[verifier::ext_equal]
pub enum FetchFailure {
    Decode(Seq<char>),
    Parse(Seq<char>),
    NoConsumptionData,
}

pub open spec fn fetch_error_view(e: FetchError) -> FetchFailure {
    match e {
        FetchError::Decode(s) => FetchFailure::Decode(s@),
        FetchError::Parse(s) => FetchFailure::Parse(s@),
        FetchError::NoConsumptionData => FetchFailure::NoConsumptionData,
    }
}

pub open spec fn fetch_result_view(r: Result<ConsumptionData, FetchError>) -> Result<
    ConsumptionData,
    FetchFailure,
> {
    match r {
        Ok(c) => Ok(c),
        Err(e) => Err(fetch_error_view(e)),
    }
}

/// What splitting a raw payload into transport frames yields: an ordered
/// sequence of attempts, each either a decoded frame or the text of a decode
/// error.  A function of the bytes alone.
pub uninterp spec fn spec_decode(bytes: Seq<u8>) -> Seq<Result<Seq<u8>, Seq<char>>>;

/// What parsing one decoded frame yields: the ordered messages it holds, or
/// the text of a parse error.  A function of the frame bytes alone.
pub uninterp spec fn spec_parse(frame: Seq<u8>) -> Result<Seq<SmlMessage>, Seq<char>>;

pub open spec fn frame_results_view(s: Seq<Result<Vec<u8>, String>>) -> Seq<
    Result<Seq<u8>, Seq<char>>,
> {
    s.map_values(
        |x: Result<Vec<u8>, String>|
            match x {
                Ok(f) => Ok(f@),
                Err(e) => Err(e@),
            },
    )
}

pub open spec fn parse_result_view(r: Result<Vec<SmlMessage>, String>) -> Result<
    Seq<SmlMessage>,
    Seq<char>,
> {
    match r {
        Ok(v) => Ok(v@),
        Err(e) => Err(e@),
    }
}

// Declarations of the decoder crate's types, so that the conversion wrappers
// below can take them; they stay opaque, nothing is read from them in
// verified code.
#[verifier::external_type_specification]
#[verifier::external_body]
pub struct ExMessageBody<'i>(sml_rs::parser::complete::MessageBody<'i>);

#[verifier::external_type_specification]
#[verifier::external_body]
pub struct ExListEntry<'i>(sml_rs::parser::common::ListEntry<'i>);

#[verifier::external_type_specification]
#[verifier::external_body]
pub struct ExSmlValue<'i>(sml_rs::parser::common::Value<'i>);

/// Converts the decoder's tagged value into the library's model, one variant
/// each; the nested-list payload carries no reading and is not kept.
#[verifier::external_body]
fn convert_value(v: &RawValue<'_>) -> SmlValue {
    match v {
        RawValue::Bool(x) => SmlValue::Bool(*x),
        RawValue::Bytes(x) => SmlValue::Bytes(x.to_vec()),
        RawValue::List(_) => SmlValue::List,
        RawValue::I8(x) => SmlValue::I8(*x),
        RawValue::I16(x) => SmlValue::I16(*x),
        RawValue::I32(x) => SmlValue::I32(*x),
        RawValue::I64(x) => SmlValue::I64(*x),
        RawValue::U8(x) => SmlValue::U8(*x),
        RawValue::U16(x) => SmlValue::U16(*x),
        RawValue::U32(x) => SmlValue::U32(*x),
        RawValue::U64(x) => SmlValue::U64(*x),
    }
}

/// Converts one of the decoder's list entries: the object identifier bytes,
/// the tagged value and the scaler, which are all the extraction reads.
#[verifier::external_body]
fn convert_entry(e: &RawListEntry<'_>) -> SmlListEntry {
    SmlListEntry { obj_name: e.obj_name.to_vec(), value: convert_value(&e.value), scaler: e.scaler }
}

/// Converts the decoder's message body, one variant each; only the list
/// response carries measurements.
#[verifier::external_body]
fn convert_message_body(body: &RawMessageBody<'_>) -> SmlMessage {
    match body {
        RawMessageBody::GetListResponse(r) => SmlMessage::ListResponse(
            GetListResponse { val_list: r.val_list.iter().map(convert_entry).collect() },
        ),
        RawMessageBody::OpenResponse(_) => SmlMessage::Other,
        RawMessageBody::CloseResponse(_) => SmlMessage::Other,
    }
}

/// Relies on sml_rs::transport::decode: splits a raw byte stream into an
/// ordered sequence of decode attempts, each a decoded frame or a decode
/// error, which is rendered as its display text.
#[verifier::external_body]
fn decode_frames(data: &[u8]) -> (r: Vec<Result<Vec<u8>, String>>)
    ensures
        frame_results_view(r@) == spec_decode(data@),
{
    sml_rs::transport::decode(data).into_iter().map(
        |x: Result<Vec<u8>, sml_rs::transport::DecodeErr>| x.map_err(|e| format!("{}", e)),
    ).collect()
}

/// Relies on sml_rs::parser::complete::parse: parses one decoded frame into
/// its ordered SML messages, or fails with a parse error, which is rendered
/// as its display text.
#[verifier::external_body]
fn parse_frame(frame: &[u8]) -> (r: Result<Vec<SmlMessage>, String>)
    ensures
        parse_result_view(r) == spec_parse(frame@),
{
    match sml_rs::parser::complete::parse(frame) {
        Ok(f) => Ok(f.messages.iter().map(|m| convert_message_body(&m.message_body)).collect()),
        Err(e) => Err(format!("{}", e)),
    }
}

/// The first snapshot any message of the sequence yields, in order.
pub open spec fn scan_spec(msgs: Seq<SmlMessage>) -> Option<ConsumptionData>
    decreases msgs.len(),
{
    if msgs.len() == 0 {
        None
    } else {
        match extract_spec(msgs[0]) {
            Some(c) => Some(c),
            None => scan_spec(msgs.drop_first()),
        }
    }
}

/// What the pipeline yields over a sequence of decode attempts: the first
/// decode error aborts it, the first parse error aborts it, the first
/// message yielding a snapshot short-circuits it, and an exhausted sequence
/// is the distinct no-consumption-data failure.
pub open spec fn pipeline_spec(frames: Seq<Result<Seq<u8>, Seq<char>>>) -> Result<
    ConsumptionData,
    FetchFailure,
>
    decreases frames.len(),
{
    if frames.len() == 0 {
        Err(FetchFailure::NoConsumptionData)
    } else {
        match frames[0] {
            Err(e) => Err(FetchFailure::Decode(e)),
            Ok(f) => match spec_parse(f) {
                Err(e) => Err(FetchFailure::Parse(e)),
                Ok(msgs) => match scan_spec(msgs) {
                    Some(c) => Ok(c),
                    None => pipeline_spec(frames.drop_first()),
                },
            },
        }
    }
}

/// Scans parsed messages in order for the first consumption snapshot.
pub fn scan_messages(msgs: &Vec<SmlMessage>) -> (o: Option<ConsumptionData>)
    ensures
        o == scan_spec(msgs@),
        o matches Some(c) ==> c.wf(),
{
    let ghost ms = msgs@;
    let n = msgs.len();
    let mut i: usize = 0;
    proof {
        assert(ms.skip(0) =~= ms);
    }
    while i < n
        invariant
            i <= n,
            n == ms.len(),
            ms == msgs@,
            scan_spec(ms) == scan_spec(ms.skip(i as int)),
        decreases n - i,
    {
        proof {
            assert(ms.skip(i as int)[0] == ms[i as int]);
        }
        if let Some(c) = get_consumption_data(&msgs[i]) {
            return Some(c);
        }
        proof {
            assert(ms.skip(i as int).drop_first() =~= ms.skip(i + 1));
        }
        i = i + 1;
    }
    proof {
        assert(ms.skip(n as int) =~= Seq::<SmlMessage>::empty());
    }
    None
}

/// Runs the fatal-on-first-error scan over a sequence of decode attempts.
pub fn process_frames(frames: &Vec<Result<Vec<u8>, String>>) -> (r: Result<
    ConsumptionData,
    FetchError,
>)
    ensures
        fetch_result_view(r) == pipeline_spec(frame_results_view(frames@)),
        r matches Ok(c) ==> c.wf(),
{
    let ghost fv = frame_results_view(frames@);
    let n = frames.len();
    let mut i: usize = 0;
    proof {
        assert(fv.skip(0) =~= fv);
    }
    while i < n
        invariant
            i <= n,
            n == frames@.len(),
            fv == frame_results_view(frames@),
            fv.len() == n,
            pipeline_spec(fv) == pipeline_spec(fv.skip(i as int)),
        decreases n - i,
    {
        proof {
            assert(fv.skip(i as int)[0] == fv[i as int]);
        }
        match &frames[i] {
            Err(e) => {
                return Err(FetchError::Decode(e.clone()));
            },
            Ok(frame) => {
                match parse_frame(frame.as_slice()) {
                    Err(e) => {
                        return Err(FetchError::Parse(e));
                    },
                    Ok(msgs) => {
                        if let Some(c) = scan_messages(&msgs) {
                            return Ok(c);
                        }
                    },
                }
            },
        }
        proof {
            assert(fv.skip(i as int).drop_first() =~= fv.skip(i + 1));
        }
        i = i + 1;
    }
    proof {
        assert(fv.skip(n as int) =~= Seq::<Result<Seq<u8>, Seq<char>>>::empty());
    }
    Err(FetchError::NoConsumptionData)
}

/// Runs one fetch over an acquired payload: splits it into frames, then
/// scans them, aborting on the first decode or parse failure and returning
/// the first snapshot any message yields.
pub fn extract_consumption_data(data: &[u8]) -> (r: Result<ConsumptionData, FetchError>)
    ensures
        fetch_result_view(r) == pipeline_spec(spec_decode(data@)),
        r matches Ok(c) ==> c.wf(),
{
    let frames = decode_frames(data);
    process_frames(&frames)
}

/// The URL of the gateway's telemetry endpoint for one node.
pub open spec fn data_url_text(host: Seq<char>, node: nat) -> Seq<char> {
    "http://"@ + host + "/data.json?node_id="@ + crate::decimal::digits(node)
}

/// Builds the URL the payload is acquired from.
pub fn data_url(host: &str, node: u32) -> (r: String)
    ensures
        r@ == data_url_text(host@, node as nat),
{
    let mut s = String::from_str("http://");
    s.append(host);
    s.append("/data.json?node_id=");
    let d = crate::decimal::digits_u128(node as u128);
    s.append(d.as_str());
    s
}

impl FetchError {
    /// The text of a classified failure.
    pub open spec fn text(self) -> Seq<char> {
        match self {
            FetchError::Decode(s) => s@,
            FetchError::Parse(s) => s@,
            FetchError::NoConsumptionData => "Could not find consumption data in response"@,
        }
    }

    /// The one-line human-readable description served with a failure status.
    pub fn describe(&self) -> (r: String)
        ensures
            r@ == self.text(),
    {
        match self {
            FetchError::Decode(s) => s.clone(),
            FetchError::Parse(s) => s.clone(),
            FetchError::NoConsumptionData => String::from_str(
                "Could not find consumption data in response",
            ),
        }
    }
}

/// First-success short-circuit: when the first frame parses to messages that
/// yield no snapshot, and the second frame's second message yields one, the
/// pipeline returns exactly that snapshot — whatever the third decode
/// attempt holds, it is never reached.
pub proof fn lemma_first_success_short_circuit(
    f1: Seq<u8>,
    f2: Seq<u8>,
    tail: Result<Seq<u8>, Seq<char>>,
    msgs1: Seq<SmlMessage>,
    msgs2: Seq<SmlMessage>,
    c: ConsumptionData,
)
    requires
        spec_parse(f1) == Ok::<Seq<SmlMessage>, Seq<char>>(msgs1),
        scan_spec(msgs1) is None,
        spec_parse(f2) == Ok::<Seq<SmlMessage>, Seq<char>>(msgs2),
        msgs2.len() >= 2,
        extract_spec(msgs2[0]) is None,
        extract_spec(msgs2[1]) == Some(c),
    ensures
        pipeline_spec(seq![Ok(f1), Ok(f2), tail]) == Ok::<ConsumptionData, FetchFailure>(c),
{
    let frames = seq![Ok::<Seq<u8>, Seq<char>>(f1), Ok::<Seq<u8>, Seq<char>>(f2), tail];
    let frames2 = seq![Ok::<Seq<u8>, Seq<char>>(f2), tail];
    assert(msgs2.drop_first()[0] == msgs2[1]);
    assert(scan_spec(msgs2.drop_first()) == Some(c));
    assert(scan_spec(msgs2) == Some(c));
    assert(frames2[0] == Ok::<Seq<u8>, Seq<char>>(f2));
    assert(pipeline_spec(frames2) == Ok::<ConsumptionData, FetchFailure>(c));
    assert(frames[0] == Ok::<Seq<u8>, Seq<char>>(f1));
    assert(frames.drop_first() =~= frames2);
    assert(pipeline_spec(frames) == pipeline_spec(frames2));
}

/// Fatal decode abort: when the first decode attempt is a failure, the
/// pipeline fails with that decode error; the remaining attempts — whatever
/// snapshots they would have yielded — are never reached.
pub proof fn lemma_fatal_decode_abort(e: Seq<char>, rest: Seq<Result<Seq<u8>, Seq<char>>>)
    ensures
        pipeline_spec(seq![Err(e)] + rest) == Err::<ConsumptionData, FetchFailure>(
            FetchFailure::Decode(e),
        ),
{
    let frames = seq![Err::<Seq<u8>, Seq<char>>(e)] + rest;
    assert(frames[0] == Err::<Seq<u8>, Seq<char>>(e));
}

} // verus!
