//! The commands that drive the timer, and their encoding on the wire.
//!
//! A connection carries one request and one response. A request is a tag
//! byte followed by its fields: integers little-endian, a text as its length
//! in bytes (eight bytes) and its UTF-8 encoding. A response is one byte.
//! Every value has exactly one encoding, and nothing may follow it.

use vstd::prelude::*;
use vstd::bytes::{
    lemma_auto_spec_u32_to_from_le_bytes, lemma_auto_spec_u64_to_from_le_bytes,
    spec_u32_from_le_bytes, spec_u32_to_le_bytes, spec_u64_from_le_bytes, spec_u64_to_le_bytes,
    u32_from_le_bytes, u32_to_le_bytes, u64_from_le_bytes, u64_to_le_bytes,
};
use vstd::slice::{slice_subrange, slice_to_vec};
use vstd::utf8::{
    decode_utf8, decode_utf8_encode_utf8, encode_utf8, encode_utf8_decode_utf8,
    encode_utf8_valid_utf8, valid_utf8,
};
use crate::clock::Moment;
use crate::timer::{outcome_view, text_view, Effect, EffectView, Timer, TimerView, WorldError};

verus! {

/// Tag of a `Cancel` request.
pub const TAG_CANCEL: u8 = 0;

/// Tag of a `Start` request.
pub const TAG_START: u8 = 1;

/// Tag of an `Increase` request.
pub const TAG_INCREASE: u8 = 2;

/// Tag of a `Togglepause` request.
pub const TAG_TOGGLEPAUSE: u8 = 3;

/// A command sent to the timer.
#[derive(Debug, PartialEq, Eq)]
pub enum Request {
    /// Cancel the timer.
    Cancel,
    /// Start a timer of `minutes` minutes that runs `command` on expiry.
    Start { minutes: u32, command: Option<String> },
    /// Shift the timer by `seconds`, which may be negative.
    Increase { seconds: i64 },
    /// Pause the running timer or resume the paused one.
    Togglepause,
}

/// The mathematical content of a [`Request`].
pub enum RequestView {
    Cancel,
    Start { minutes: u32, command: Option<Seq<char>> },
    Increase { seconds: i64 },
    Togglepause,
}

impl View for Request {
    type V = RequestView;

    open spec fn view(&self) -> RequestView {
        match *self {
            Request::Cancel => RequestView::Cancel,
            Request::Start { minutes, command } => RequestView::Start {
                minutes,
                command: text_view(command),
            },
            Request::Increase { seconds } => RequestView::Increase { seconds },
            Request::Togglepause => RequestView::Togglepause,
        }
    }
}

/// The encoding of an optional text: a zero byte for none; else a one byte,
/// the length of the UTF-8 encoding, and the encoding.
pub open spec fn encode_command(command: Option<Seq<char>>) -> Seq<u8> {
    match command {
        None => seq![0u8],
        Some(text) => seq![1u8] + spec_u64_to_le_bytes(encode_utf8(text).len() as u64)
            + encode_utf8(text),
    }
}

/// The encoding of a request.
pub open spec fn encode_request(request: RequestView) -> Seq<u8> {
    match request {
        RequestView::Cancel => seq![TAG_CANCEL],
        RequestView::Start { minutes, command } => seq![TAG_START] + spec_u32_to_le_bytes(minutes)
            + encode_command(command),
        RequestView::Increase { seconds } => seq![TAG_INCREASE] + spec_u64_to_le_bytes(
            seconds as u64,
        ),
        RequestView::Togglepause => seq![TAG_TOGGLEPAUSE],
    }
}

/// The request that `bytes` encodes, if they encode one.
pub open spec fn decode_request(bytes: Seq<u8>) -> Option<RequestView> {
    if exists|r: RequestView| r.wf() && encode_request(r) == bytes {
        Some(choose|r: RequestView| r.wf() && encode_request(r) == bytes)
    } else {
        None
    }
}

/// The content of an optional request.
pub open spec fn request_view(request: Option<Request>) -> Option<RequestView> {
    match request {
        Some(r) => Some(r@),
        None => None,
    }
}

/// The encoding of a response: zero for success, else the number of the
/// error.
pub open spec fn encode_response(response: Result<(), WorldError>) -> Seq<u8> {
    match response {
        Ok(_) => seq![0u8],
        Err(WorldError::NoTimerExisting) => seq![1u8],
        Err(WorldError::TimerAlreadyExisting) => seq![2u8],
    }
}

impl RequestView {
    /// Whether the length of the command's encoding can be written in eight
    /// bytes. This holds of every request held in memory.
    pub open spec fn wf(self) -> bool {
        self matches RequestView::Start { command: Some(text), .. } ==> encode_utf8(text).len()
            <= u64::MAX
    }

    /// Whether the timer can carry out the request at `now`.
    pub open spec fn admitted_by(self, timer: TimerView, now: Moment) -> bool {
        match self {
            RequestView::Cancel => true,
            RequestView::Start { minutes, .. } => timer.admits_start(now, minutes),
            RequestView::Increase { seconds } => timer.admits_increase(seconds),
            RequestView::Togglepause => timer.admits_togglepause(now),
        }
    }

    /// The timer after it has carried out the request at `now`.
    pub open spec fn applied_to(self, timer: TimerView, now: Moment) -> TimerView {
        match self {
            RequestView::Cancel => timer.cancelled(),
            RequestView::Start { minutes, command } => timer.started(now, minutes, command),
            RequestView::Increase { seconds } => timer.increased(seconds),
            RequestView::Togglepause => timer.toggled(now),
        }
    }

    /// The result of the timer's carrying out the request at `now`.
    pub open spec fn outcome_on(self, timer: TimerView, now: Moment) -> Result<
        EffectView,
        WorldError,
    > {
        match self {
            RequestView::Cancel => Ok(timer.cancel_effect()),
            RequestView::Start { minutes, .. } => timer.start_outcome(now, minutes),
            RequestView::Increase { seconds } => timer.increase_outcome(seconds),
            RequestView::Togglepause => timer.togglepause_outcome(now),
        }
    }
}

/// The response that reports a command's result: the error unchanged, and
/// success without the effect.
pub open spec fn response_view(outcome: Result<EffectView, WorldError>) -> Result<(), WorldError> {
    match outcome {
        Ok(_) => Ok(()),
        Err(error) => Err(error),
    }
}

impl Request {
    /// The request on the wire.
    pub fn encode(&self) -> (bytes: Vec<u8>)
        ensures
            bytes@ == encode_request(self@),
            self@.wf(),
    {
        match self {
            Request::Cancel => {
                let mut bytes = Vec::new();
                bytes.push(TAG_CANCEL);
                assert(bytes@ =~= encode_request(self@));
                bytes
            },
            Request::Togglepause => {
                let mut bytes = Vec::new();
                bytes.push(TAG_TOGGLEPAUSE);
                assert(bytes@ =~= encode_request(self@));
                bytes
            },
            Request::Increase { seconds } => {
                let mut bytes = Vec::new();
                bytes.push(TAG_INCREASE);
                let raw = #[verifier::truncate]
                (*seconds as u64);
                let mut field = u64_to_le_bytes(raw);
                bytes.append(&mut field);
                assert(bytes@ =~= encode_request(self@));
                bytes
            },
            Request::Start { minutes, command } => {
                let mut bytes = Vec::new();
                bytes.push(TAG_START);
                let mut field = u32_to_le_bytes(*minutes);
                bytes.append(&mut field);
                match command {
                    None => {
                        bytes.push(0u8);
                    },
                    Some(text) => {
                        bytes.push(1u8);
                        let payload = text.as_str().as_bytes();
                        let mut length = u64_to_le_bytes(payload.len() as u64);
                        bytes.append(&mut length);
                        let mut payload = slice_to_vec(payload);
                        bytes.append(&mut payload);
                    },
                }
                assert(bytes@ =~= encode_request(self@));
                bytes
            },
        }
    }

    /// Reads a request from the wire. This succeeds on exactly the bytes
    /// that are the encoding of a request, and yields that request.
    pub fn decode(bytes: &[u8]) -> (request: Option<Request>)
        ensures
            request matches Some(r) ==> r@.wf() && encode_request(r@) == bytes@,
            request is None ==> forall|r: RequestView| r.wf() ==> encode_request(r) != bytes@,
            request_view(request) == decode_request(bytes@),
    {
        let request = Request::decode_checked(bytes);
        proof {
            if request is Some {
                let chosen = choose|q: RequestView| q.wf() && encode_request(q) == bytes@;
                law_request_encoding_is_injective(chosen, request->Some_0@);
            }
        }
        request
    }

    /// Reads a request from the wire, field by field.
    fn decode_checked(bytes: &[u8]) -> (request: Option<Request>)
        ensures
            request matches Some(r) ==> r@.wf() && encode_request(r@) == bytes@,
            request is None ==> forall|r: RequestView| r.wf() ==> encode_request(r) != bytes@,
    {
        proof {
            lemma_auto_spec_u32_to_from_le_bytes();
            lemma_auto_spec_u64_to_from_le_bytes();
            assert forall|r: RequestView| r.wf() implies shaped(r, #[trigger] encode_request(r)) by {
                lemma_request_shape(r);
            }
        }
        let len = bytes.len();
        if len == 0 {
            return None;
        }
        let tag = bytes[0];
        if tag == TAG_CANCEL {
            if len == 1 {
                assert(bytes@ =~= encode_request(RequestView::Cancel));
                Some(Request::Cancel)
            } else {
                None
            }
        } else if tag == TAG_TOGGLEPAUSE {
            if len == 1 {
                assert(bytes@ =~= encode_request(RequestView::Togglepause));
                Some(Request::Togglepause)
            } else {
                None
            }
        } else if tag == TAG_INCREASE {
            if len == 9 {
                let raw = u64_from_le_bytes(slice_subrange(bytes, 1, 9));
                let seconds = #[verifier::truncate]
                (raw as i64);
                assert(seconds as u64 == raw) by (bit_vector)
                    requires
                        seconds == raw as i64,
                ;
                assert(bytes@ =~= encode_request(RequestView::Increase { seconds }));
                Some(Request::Increase { seconds })
            } else {
                None
            }
        } else if tag == TAG_START {
            if len < 6 {
                return None;
            }
            let minutes = u32_from_le_bytes(slice_subrange(bytes, 1, 5));
            let flag = bytes[5];
            if flag == 0 {
                if len == 6 {
                    assert(bytes@ =~= encode_request(
                        RequestView::Start { minutes, command: None },
                    ));
                    Some(Request::Start { minutes, command: None })
                } else {
                    None
                }
            } else if flag == 1 {
                if len < 14 {
                    return None;
                }
                let declared = u64_from_le_bytes(slice_subrange(bytes, 6, 14));
                if declared != (len - 14) as u64 {
                    return None;
                }
                let payload = slice_to_vec(slice_subrange(bytes, 14, len));
                match text_from_utf8(payload) {
                    Some(text) => {
                        proof {
                            decode_utf8_encode_utf8(bytes@.subrange(14, len as int));
                            assert(bytes@ =~= encode_request(
                                RequestView::Start { minutes, command: Some(text@) },
                            ));
                        }
                        Some(Request::Start { minutes, command: Some(text) })
                    },
                    None => {
                        proof {
                            assert forall|r: RequestView| r.wf() implies encode_request(r)
                                != bytes@ by {
                                lemma_request_shape(r);
                                if let RequestView::Start { command: Some(text), .. } = r {
                                    encode_utf8_valid_utf8(text);
                                }
                            }
                        }
                        None
                    },
                }
            } else {
                None
            }
        } else {
            None
        }
    }

    /// Whether `apply` may be called with these arguments.
    pub fn admitted_by(&self, timer: &Timer, now: Moment) -> (admitted: bool)
        requires
            timer.wf(),
            now.wf(),
        ensures
            admitted == self@.admitted_by(timer@, now),
    {
        match self {
            Request::Cancel => true,
            Request::Start { minutes, .. } => timer.admits_start(now, *minutes),
            Request::Increase { seconds } => timer.admits_increase(*seconds),
            Request::Togglepause => timer.admits_togglepause(now),
        }
    }

    /// Has the timer carry out the request at `now`: each request is one
    /// call of the timer's method of the same name.
    pub fn apply(self, timer: &mut Timer, now: Moment) -> (outcome: Result<Effect, WorldError>)
        requires
            old(timer).wf(),
            now.wf(),
            self@.admitted_by(old(timer)@, now),
        ensures
            final(timer)@ == self@.applied_to(old(timer)@, now),
            outcome_view(outcome) == self@.outcome_on(old(timer)@, now),
            final(timer).wf(),
    {
        match self {
            Request::Cancel => timer.cancel(),
            Request::Start { minutes, command } => timer.start(now, minutes, command),
            Request::Increase { seconds } => timer.increase(seconds),
            Request::Togglepause => timer.togglepause(now),
        }
    }
}

/// The response that reports a command's result.
pub fn response_to(outcome: &Result<Effect, WorldError>) -> (response: Result<(), WorldError>)
    ensures
        response == response_view(outcome_view(*outcome)),
{
    match outcome {
        Ok(_) => Ok(()),
        Err(error) => Err(*error),
    }
}

/// The response on the wire.
pub fn encode_response_bytes(response: &Result<(), WorldError>) -> (bytes: Vec<u8>)
    ensures
        bytes@ == encode_response(*response),
{
    let code: u8 = match response {
        Ok(_) => 0,
        Err(WorldError::NoTimerExisting) => 1,
        Err(WorldError::TimerAlreadyExisting) => 2,
    };
    let mut bytes = Vec::new();
    bytes.push(code);
    assert(bytes@ =~= encode_response(*response));
    bytes
}

/// Reads a response from the wire. This succeeds on exactly the bytes that
/// are the encoding of a response, and yields that response.
pub fn decode_response(bytes: &[u8]) -> (response: Option<Result<(), WorldError>>)
    ensures
        response matches Some(r) ==> encode_response(r) == bytes@,
        response is None ==> forall|r: Result<(), WorldError>| encode_response(r) != bytes@,
{
    if bytes.len() != 1 {
        return None;
    }
    let code = bytes[0];
    if code == 0 {
        assert(bytes@ =~= encode_response(Ok(())));
        Some(Ok(()))
    } else if code == 1 {
        assert(bytes@ =~= encode_response(Err(WorldError::NoTimerExisting)));
        Some(Err(WorldError::NoTimerExisting))
    } else if code == 2 {
        assert(bytes@ =~= encode_response(Err(WorldError::TimerAlreadyExisting)));
        Some(Err(WorldError::TimerAlreadyExisting))
    } else {
        None
    }
}

/// Whether `bytes` has the layout of the encoding of `request`.
pub open spec fn shaped(request: RequestView, bytes: Seq<u8>) -> bool {
    match request {
        RequestView::Cancel => bytes.len() == 1 && bytes[0] == TAG_CANCEL,
        RequestView::Togglepause => bytes.len() == 1 && bytes[0] == TAG_TOGGLEPAUSE,
        RequestView::Increase { seconds } => {
            &&& bytes.len() == 9
            &&& bytes[0] == TAG_INCREASE
            &&& bytes.subrange(1, 9) == spec_u64_to_le_bytes(seconds as u64)
        },
        RequestView::Start { minutes, command: None } => {
            &&& bytes.len() == 6
            &&& bytes[0] == TAG_START
            &&& bytes.subrange(1, 5) == spec_u32_to_le_bytes(minutes)
            &&& bytes[5] == 0
        },
        RequestView::Start { minutes, command: Some(text) } => {
            &&& bytes.len() == 14 + encode_utf8(text).len()
            &&& bytes[0] == TAG_START
            &&& bytes.subrange(1, 5) == spec_u32_to_le_bytes(minutes)
            &&& bytes[5] == 1
            &&& bytes.subrange(6, 14) == spec_u64_to_le_bytes(encode_utf8(text).len() as u64)
            &&& bytes.subrange(14, bytes.len() as int) == encode_utf8(text)
        },
    }
}

/// The encoding of a request has the layout of that request.
pub proof fn lemma_request_shape(request: RequestView)
    requires
        request.wf(),
    ensures
        shaped(request, encode_request(request)),
{
    lemma_auto_spec_u32_to_from_le_bytes();
    lemma_auto_spec_u64_to_from_le_bytes();
    let bytes = encode_request(request);
    match request {
        RequestView::Increase { seconds } => {
            assert(bytes.subrange(1, 9) =~= spec_u64_to_le_bytes(seconds as u64));
        },
        RequestView::Start { minutes, command: None } => {
            assert(bytes.subrange(1, 5) =~= spec_u32_to_le_bytes(minutes));
        },
        RequestView::Start { minutes, command: Some(text) } => {
            let payload = encode_utf8(text);
            assert(bytes.subrange(1, 5) =~= spec_u32_to_le_bytes(minutes));
            assert(bytes.subrange(6, 14) =~= spec_u64_to_le_bytes(payload.len() as u64));
            assert(bytes.subrange(14, bytes.len() as int) =~= payload);
        },
        _ => {},
    }
}

/// Two requests with the same encoding are the same request.
pub proof fn law_request_encoding_is_injective(a: RequestView, b: RequestView)
    requires
        a.wf(),
        b.wf(),
        encode_request(a) == encode_request(b),
    ensures
        a == b,
{
    lemma_auto_spec_u32_to_from_le_bytes();
    lemma_auto_spec_u64_to_from_le_bytes();
    lemma_request_shape(a);
    lemma_request_shape(b);
    match (a, b) {
        (RequestView::Increase { seconds: x }, RequestView::Increase { seconds: y }) => {
            assert(spec_u64_from_le_bytes(spec_u64_to_le_bytes(x as u64)) == x as u64);
            assert(spec_u64_from_le_bytes(spec_u64_to_le_bytes(y as u64)) == y as u64);
            assert(x == y) by (bit_vector)
                requires
                    x as u64 == y as u64,
            ;
        },
        (
            RequestView::Start { minutes: m, command: c },
            RequestView::Start { minutes: n, command: d },
        ) => {
            assert(spec_u32_from_le_bytes(spec_u32_to_le_bytes(m)) == m);
            assert(spec_u32_from_le_bytes(spec_u32_to_le_bytes(n)) == n);
            if let Some(s) = c {
                if let Some(t) = d {
                    encode_utf8_decode_utf8(s);
                    encode_utf8_decode_utf8(t);
                    assert(s =~= t);
                }
            }
        },
        _ => {},
    }
}

/// Decoding what was encoded gives the request back.
pub proof fn law_decode_inverts_encode(request: RequestView)
    requires
        request.wf(),
    ensures
        decode_request(encode_request(request)) == Some(request),
{
    let bytes = encode_request(request);
    let chosen = choose|r: RequestView| r.wf() && encode_request(r) == bytes;
    law_request_encoding_is_injective(chosen, request);
}

/// Two responses with the same encoding are the same response.
pub proof fn law_response_encoding_is_injective(
    a: Result<(), WorldError>,
    b: Result<(), WorldError>,
)
    requires
        encode_response(a) == encode_response(b),
    ensures
        a == b,
{
    let code = encode_response(a)[0];
    match a {
        Ok(_) => assert(code == 0),
        Err(WorldError::NoTimerExisting) => assert(code == 1),
        Err(WorldError::TimerAlreadyExisting) => assert(code == 2),
    }
    if let Ok(unit) = a {
        assert(unit == ());
    }
    if let Ok(unit) = b {
        assert(unit == ());
    }
    match b {
        Ok(_) => assert(encode_response(b)[0] == 0),
        Err(WorldError::NoTimerExisting) => assert(encode_response(b)[0] == 1),
        Err(WorldError::TimerAlreadyExisting) => assert(encode_response(b)[0] == 2),
    }
}

/// Calls `String::from_utf8`.
///
/// Trusted: the standard library accepts exactly the valid UTF-8 encodings,
/// and the text it returns is made of the characters that the bytes encode.
#[verifier::external_body]
fn text_from_utf8(bytes: Vec<u8>) -> (text: Option<String>)
    ensures
        valid_utf8(bytes@) ==> text.is_some() && text.unwrap()@ == decode_utf8(bytes@),
        !valid_utf8(bytes@) ==> text is None,
{
    match String::from_utf8(bytes) {
        Ok(text) => Some(text),
        Err(_) => None,
    }
}

} // verus!
