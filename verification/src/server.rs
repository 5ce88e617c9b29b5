//! Pairing: the request for a QR code, and the reading of the reply.

use vstd::prelude::*;
use crate::error::{DecodeError, PairingError, SendError};
use crate::json::{
    as_bool, as_i64, as_text, json_model, json_parse, members_model, object_members, parse,
    JsonModel,
};
use crate::members::{keys_distinct, lemma_value_of_at, lemma_value_of_has_key, position, value_of};
use crate::payload::{Members, Payload, WireModel, WireValue};
use crate::request::{Delivery, Request, RequestModel};

verus! {

/// The URL of the pairing service.
pub open spec fn qr_code_url() -> Seq<char> {
    "https://api.lovense.com/api/lan/getQrCode"@
}

/// The body of a request for a QR code.
pub open spec fn qr_code_members(
    token: Seq<char>,
    user_id: Seq<char>,
    username: Seq<char>,
) -> Members {
    seq![
        ("token"@, WireModel::Text(token)),
        ("uid"@, WireModel::Text(user_id)),
        ("uname"@, WireModel::Text(username)),
        ("v"@, WireModel::Text("2"@)),
    ]
}

/// What a reply of the pairing service stands for.
pub struct QrCodeModel {
    pub result: bool,
    pub code: int,
    pub message: Seq<char>,
    pub data: Seq<(Seq<char>, Seq<char>)>,
}

/// Whether every member is a string.
pub open spec fn all_text(members: Seq<(Seq<char>, JsonModel)>) -> bool {
    forall|i: int| 0 <= i < members.len() ==> (#[trigger] members[i]).1 is Text
}

/// The members, each with the string that it is.
pub open spec fn texts(members: Seq<(Seq<char>, JsonModel)>) -> Seq<(Seq<char>, Seq<char>)> {
    members.map_values(|m: (Seq<char>, JsonModel)| (m.0, m.1->Text_0))
}

/// The reply that a JSON document is. The document must be an object with a
/// boolean `result`, an integer `code` of 32 bits, a string `message`, and an
/// object `data` whose members are all strings; other members are passed
/// over. What is wrong first, in that order, is the error.
pub open spec fn decoded(doc: JsonModel) -> Result<QrCodeModel, DecodeError> {
    if doc is Object {
        let ms = doc->Object_0;
        let result = value_of(ms, "result"@);
        let code = value_of(ms, "code"@);
        let message = value_of(ms, "message"@);
        let data = value_of(ms, "data"@);
        if !(result matches Some(JsonModel::Bool(_))) {
            Err(DecodeError::Result)
        } else if !(code matches Some(JsonModel::Integer(c)) && i32::MIN <= c <= i32::MAX) {
            Err(DecodeError::Code)
        } else if !(message matches Some(JsonModel::Text(_))) {
            Err(DecodeError::Message)
        } else if !(data matches Some(JsonModel::Object(ds)) && all_text(ds)) {
            Err(DecodeError::Data)
        } else {
            Ok(
                QrCodeModel {
                    result: result->Some_0->Bool_0,
                    code: code->Some_0->Integer_0,
                    message: message->Some_0->Text_0,
                    data: texts(data->Some_0->Object_0),
                },
            )
        }
    } else {
        Err(DecodeError::NotAnObject)
    }
}

/// The reply that the body of a response is: that of the JSON document that
/// the body holds.
pub open spec fn decoded_body(body: Seq<u8>) -> Result<QrCodeModel, DecodeError> {
    match json_parse(body) {
        Some(doc) => decoded(doc),
        None => Err(DecodeError::NotJson),
    }
}

/// A reply of the pairing service. The QR code and what comes with it are
/// the members of `data`, in which no key occurs twice.
#[derive(Clone, Debug, PartialEq, Eq)]
pub struct LovenseQrCodeResponse {
    pub result: bool,
    pub code: i32,
    pub message: String,
    pub data: Vec<(String, String)>,
}

impl View for LovenseQrCodeResponse {
    type V = QrCodeModel;

    open spec fn view(&self) -> QrCodeModel {
        QrCodeModel {
            result: self.result,
            code: self.code as int,
            message: self.message@,
            data: self.data@.map_values(|m: (String, String)| (m.0@, m.1@)),
        }
    }
}

/// What the reading of a reply gave: what the reply stands for, or what was
/// wrong with it.
pub open spec fn response_outcome(r: Result<LovenseQrCodeResponse, DecodeError>) -> Result<
    QrCodeModel,
    DecodeError,
> {
    match r {
        Ok(response) => Ok(response@),
        Err(e) => Err(e),
    }
}

/// The member with the key `key`.
fn member<'a>(members: &Vec<(String, &'a serde_json::Value)>, key: &str) -> (r: Option<
    &'a serde_json::Value,
>)
    ensures
        match r {
            Some(v) => value_of(members_model(members@), key@) == Some(json_model(*v)),
            None => value_of(members_model(members@), key@) is None,
        },
{
    let ghost model = members_model(members@);
    match position(members, key) {
        Some(i) => {
            proof {
                assert forall|j: int| 0 <= j < i implies (#[trigger] model[j]).0 != key@ by {
                    assert(members[j].0@ != key@);
                }
                lemma_value_of_at(model, key@, i as int);
            }
            Some(members[i].1)
        },
        None => {
            proof {
                assert forall|j: int| 0 <= j < model.len() implies (#[trigger] model[j]).0
                    != key@ by {
                    assert(members[j].0@ != key@);
                }
                lemma_value_of_has_key(model, key@);
            }
            None
        },
    }
}

/// The members of `doc`, each with the string that it is, where `doc` is an
/// object whose members are all strings.
fn text_members(doc: &serde_json::Value) -> (r: Option<Vec<(String, String)>>)
    ensures
        match r {
            Some(out) => json_model(*doc) matches JsonModel::Object(ds) && all_text(ds)
                && out@.map_values(|m: (String, String)| (m.0@, m.1@)) == texts(ds)
                && keys_distinct(texts(ds)),
            None => !(json_model(*doc) matches JsonModel::Object(ds) && all_text(ds)),
        },
{
    let members = match object_members(doc) {
        Some(members) => members,
        None => {
            return None;
        },
    };
    let ghost ds = members_model(members@);
    let mut out: Vec<(String, String)> = Vec::new();
    let mut i: usize = 0;
    while i < members.len()
        invariant
            i <= members.len(),
            ds == members_model(members@),
            json_model(*doc) == JsonModel::Object(ds),
            out.len() == i,
            forall|j: int| 0 <= j < i ==> (#[trigger] ds[j]).1 is Text,
            forall|j: int|
                0 <= j < i ==> (#[trigger] out[j]).0@ == ds[j].0 && out[j].1@ == ds[j].1->Text_0,
        decreases members.len() - i,
    {
        match as_text(members[i].1) {
            Some(text) => {
                assert(ds[i as int] == (members[i as int].0@, json_model(*members[i as int].1)));
                out.push((members[i].0.clone(), String::from_str(text)));
            },
            None => {
                assert(ds[i as int] == (members[i as int].0@, json_model(*members[i as int].1)));
                return None;
            },
        }
        i += 1;
    }
    assert(out@.map_values(|m: (String, String)| (m.0@, m.1@)) =~= texts(ds));
    assert forall|a: int, b: int| 0 <= a < b < texts(ds).len() implies (#[trigger] texts(ds)[a]).0
        != (#[trigger] texts(ds)[b]).0 by {
        assert(members[a].0@ != members[b].0@);
    }
    Some(out)
}

impl LovenseQrCodeResponse {
    /// Whether no key occurs twice in `data`.
    pub open spec fn wf(&self) -> bool {
        keys_distinct(self@.data)
    }

    /// The member of `data` with the key `key`.
    pub fn get(&self, key: &str) -> (r: Option<&String>)
        ensures
            match r {
                Some(text) => value_of(self@.data, key@) == Some(text@),
                None => value_of(self@.data, key@) is None,
            },
    {
        let ghost data = self@.data;
        match position(&self.data, key) {
            Some(i) => {
                proof {
                    assert forall|j: int| 0 <= j < i implies (#[trigger] data[j]).0 != key@ by {
                        assert(self.data[j].0@ != key@);
                    }
                    lemma_value_of_at(data, key@, i as int);
                }
                Some(&self.data[i].1)
            },
            None => {
                proof {
                    assert forall|j: int| 0 <= j < data.len() implies (#[trigger] data[j]).0
                        != key@ by {
                        assert(self.data[j].0@ != key@);
                    }
                    lemma_value_of_has_key(data, key@);
                }
                None
            },
        }
    }

    /// Reads a reply from the JSON document `doc`.
    pub fn from_json(doc: &serde_json::Value) -> (r: Result<LovenseQrCodeResponse, DecodeError>)
        ensures
            response_outcome(r) == decoded(json_model(*doc)),
            r matches Ok(response) ==> response.wf(),
    {
        let members = match object_members(doc) {
            Some(members) => members,
            None => {
                return Err(DecodeError::NotAnObject);
            },
        };
        let result = match member(&members, "result") {
            Some(v) => match as_bool(v) {
                Some(result) => result,
                None => {
                    return Err(DecodeError::Result);
                },
            },
            None => {
                return Err(DecodeError::Result);
            },
        };
        let code: i64 = match member(&members, "code") {
            Some(v) => match as_i64(v) {
                Some(code) => code,
                None => {
                    return Err(DecodeError::Code);
                },
            },
            None => {
                return Err(DecodeError::Code);
            },
        };
        if code < -0x8000_0000 || code > 0x7fff_ffff {
            return Err(DecodeError::Code);
        }
        let message = match member(&members, "message") {
            Some(v) => match as_text(v) {
                Some(message) => String::from_str(message),
                None => {
                    return Err(DecodeError::Message);
                },
            },
            None => {
                return Err(DecodeError::Message);
            },
        };
        let data = match member(&members, "data") {
            Some(v) => match text_members(v) {
                Some(data) => data,
                None => {
                    return Err(DecodeError::Data);
                },
            },
            None => {
                return Err(DecodeError::Data);
            },
        };
        Ok(LovenseQrCodeResponse { result, code: code as i32, message, data })
    }

    /// Reads a reply from the body of a response.
    pub fn decode(body: &[u8]) -> (r: Result<LovenseQrCodeResponse, DecodeError>)
        ensures
            response_outcome(r) == decoded_body(body@),
            r matches Ok(response) ==> response.wf(),
    {
        match parse(body) {
            Ok(doc) => LovenseQrCodeResponse::from_json(&doc),
            Err(_) => Err(DecodeError::NotJson),
        }
    }
}

/// The pairing service, with the token that the caller holds for it.
#[derive(Clone, Debug, PartialEq, Eq)]
pub struct LovenseServer {
    token: String,
}

impl LovenseServer {
    /// The token.
    pub closed spec fn token(&self) -> Seq<char> {
        self.token@
    }

    /// The pairing service, with `token` as the caller's token.
    pub fn new(token: String) -> (r: LovenseServer)
        ensures
            r.token() == token@,
    {
        LovenseServer { token }
    }

    /// The request for a QR code by which the user `user_id`, called
    /// `username`, pairs a toy.
    pub fn create_qr_code(&self, user_id: &str, username: &str) -> (r: Request)
        ensures
            r@ == (RequestModel {
                url: qr_code_url(),
                body: qr_code_members(self.token(), user_id@, username@),
            }),
            r.body.wf(),
    {
        let mut data = Payload::new();
        data.push(String::from_str("token"), WireValue::Text(self.token.clone()));
        data.push(String::from_str("uid"), WireValue::Text(String::from_str(user_id)));
        data.push(String::from_str("uname"), WireValue::Text(String::from_str(username)));
        data.push(String::from_str("v"), WireValue::Text(String::from_str("2")));
        proof {
            reveal_strlit("token");
            reveal_strlit("uid");
            reveal_strlit("uname");
            reveal_strlit("v");
            let e = qr_code_members(self.token(), user_id@, username@);
            assert(data@ =~= e);
            assert("token"@.len() == 5 && "token"@[0] == 't');
            assert("uid"@.len() == 3);
            assert("uname"@.len() == 5 && "uname"@[0] == 'u');
            assert("v"@.len() == 1);
            assert(e[0].0 == "token"@ && e[1].0 == "uid"@ && e[2].0 == "uname"@ && e[3].0 == "v"@);
            assert(e[0].1 is Text && e[1].1 is Text && e[2].1 is Text && e[3].1 is Text);
        }
        Request { url: String::from_str("https://api.lovense.com/api/lan/getQrCode"), body: data }
    }

    /// The reply to a request for a QR code whose transfer ended as `outcome`
    /// did: a failed transfer is handed on with its reason, and the body of
    /// a reply is read, whatever its status.
    pub fn read_reply(outcome: Delivery) -> (r: Result<LovenseQrCodeResponse, PairingError>)
        ensures
            match outcome {
                Delivery::Answered { status, body } => match decoded_body(body@) {
                    Ok(reply) => r matches Ok(response) && response@ == reply && response.wf(),
                    Err(e) => r == Err::<LovenseQrCodeResponse, PairingError>(
                        PairingError::Decode(e),
                    ),
                },
                Delivery::Failed { reason } => r == Err::<LovenseQrCodeResponse, PairingError>(
                    PairingError::Send(SendError { reason }),
                ),
            },
    {
        match outcome {
            Delivery::Answered { status, body } => match LovenseQrCodeResponse::decode(
                body.as_slice(),
            ) {
                Ok(response) => Ok(response),
                Err(e) => Err(PairingError::Decode(e)),
            },
            Delivery::Failed { reason } => Err(PairingError::Send(SendError { reason })),
        }
    }
}

} // verus!
