//! What the child sends: messages of the data channel and control traffic.

use crate::json::{members_model, names, no_members, Json, JsonModel};
use crate::proto::control::{Request, RequestModel, Response, ResponseModel};
use crate::proto::message::{
    AssistantEnvelope, AssistantEnvelopeModel, Message, MessageModel, ResultMessage,
    ResultMessageModel, SystemMessage, SystemMessageModel, UserEnvelope, UserEnvelopeModel,
};
use crate::strings::same;
use crate::views::model_opt;
use vstd::prelude::*;

verus! {

/// The request in the member `request` of `j`.
pub open spec fn request_at(j: JsonModel) -> Option<RequestModel> {
    match j.get("request"@) {
        Some(q) => RequestModel::read(q),
        None => None,
    }
}

/// The response in the member `response` of `j`.
pub open spec fn response_at(j: JsonModel) -> Option<ResponseModel> {
    match j.get("response"@) {
        Some(p) => ResponseModel::read(p),
        None => None,
    }
}

/// A control request as the child sends it.
#[derive(Debug)]
pub struct ControlRequestEnvelope {
    pub request_id: String,
    pub request: Request,
    pub extra: Vec<(String, Json)>,
}

pub struct ControlRequestEnvelopeModel {
    pub request_id: Seq<char>,
    pub request: RequestModel,
    pub extra: Seq<(Seq<char>, JsonModel)>,
}

impl View for ControlRequestEnvelope {
    type V = ControlRequestEnvelopeModel;

    open spec fn view(&self) -> ControlRequestEnvelopeModel {
        ControlRequestEnvelopeModel {
            request_id: self.request_id@,
            request: self.request@,
            extra: members_model(self.extra@),
        }
    }
}

impl ControlRequestEnvelopeModel {
    /// The envelope with these members and no others.
    pub open spec fn of(request_id: Seq<char>, request: RequestModel) -> ControlRequestEnvelopeModel {
        ControlRequestEnvelopeModel {
            request_id,
            request,
            extra: Seq::empty(),
        }
    }

    /// The names of the members that the envelope knows.
    pub open spec fn known() -> Seq<Seq<char>> {
        seq![
            "type"@,
            "request_id"@,
            "request"@,
        ]
    }

    /// The envelope that `j` carries, if it has the members of one.
    pub open spec fn read(j: JsonModel) -> Option<ControlRequestEnvelopeModel> {
        if j.text_at("request_id"@) is Some && request_at(j) is Some {
            Some(
                ControlRequestEnvelopeModel {
                    request_id: j.text_at("request_id"@).unwrap(),
                    request: request_at(j).unwrap(),
                    extra: j.unknown(Self::known()),
                },
            )
        } else {
            None
        }
    }
}

impl ControlRequestEnvelope {
    pub fn new(request_id: &str, request: Request) -> (r: ControlRequestEnvelope)
        ensures
            r@ == ControlRequestEnvelopeModel::of(request_id@, request@),
    {
        ControlRequestEnvelope {
            request_id: request_id.to_owned(),
            request,
            extra: no_members(),
        }
    }

    pub fn request_id(&self) -> (r: &str)
        ensures
            r@ == self@.request_id,
    {
        self.request_id.as_str()
    }

    pub fn request(&self) -> (r: &Request)
        ensures
            r@ == self@.request,
    {
        &self.request
    }

    pub fn extra(&self) -> (r: &Vec<(String, Json)>)
        ensures
            members_model(r@) == self@.extra,
    {
        &self.extra
    }

    pub fn set_request_id(&mut self, request_id: &str)
        ensures
            final(self)@ == (ControlRequestEnvelopeModel { request_id: request_id@, ..old(self)@ }),
    {
        self.request_id = request_id.to_owned();
    }

    pub fn set_request(&mut self, request: Request)
        ensures
            final(self)@ == (ControlRequestEnvelopeModel { request: request@, ..old(self)@ }),
    {
        self.request = request;
    }

    pub fn set_extra(&mut self, extra: Vec<(String, Json)>)
        ensures
            final(self)@ == (ControlRequestEnvelopeModel { extra: members_model(extra@), ..old(self)@ }),
    {
        self.extra = extra;
    }

    pub fn with_request_id(self, request_id: &str) -> (r: ControlRequestEnvelope)
        ensures
            r@ == (ControlRequestEnvelopeModel { request_id: request_id@, ..self@ }),
    {
        let mut e = self;
        e.request_id = request_id.to_owned();
        e
    }

    pub fn with_request(self, request: Request) -> (r: ControlRequestEnvelope)
        ensures
            r@ == (ControlRequestEnvelopeModel { request: request@, ..self@ }),
    {
        let mut e = self;
        e.request = request;
        e
    }

    pub fn with_extra(self, extra: Vec<(String, Json)>) -> (r: ControlRequestEnvelope)
        ensures
            r@ == (ControlRequestEnvelopeModel { extra: members_model(extra@), ..self@ }),
    {
        let mut e = self;
        e.extra = extra;
        e
    }

    /// Reads the envelope from `j`.
    pub fn from_json(j: &Json) -> (r: Option<ControlRequestEnvelope>)
        ensures
            model_opt(r) == ControlRequestEnvelopeModel::read(j@),
    {
        let request_id = match j.str_at("request_id") {
            Some(v) => v.to_owned(),
            None => {
                return None;
            },
        };
        let request = match j.get("request") {
            Some(q) => match Request::from_json(q) {
                Some(request) => request,
                None => {
                    return None;
                },
            },
            None => {
                return None;
            },
        };
        let known = vec![
            "type",
            "request_id",
            "request",
        ];
        proof {
            assert(names(known@) =~= ControlRequestEnvelopeModel::known());
        }
        Some(ControlRequestEnvelope { request_id, request, extra: j.unknown(&known) })
    }
}

/// A control response as the child sends it.
#[derive(Debug)]
pub struct ControlResponseEnvelope {
    pub response: Response,
    pub extra: Vec<(String, Json)>,
}

pub struct ControlResponseEnvelopeModel {
    pub response: ResponseModel,
    pub extra: Seq<(Seq<char>, JsonModel)>,
}

impl View for ControlResponseEnvelope {
    type V = ControlResponseEnvelopeModel;

    open spec fn view(&self) -> ControlResponseEnvelopeModel {
        ControlResponseEnvelopeModel {
            response: self.response@,
            extra: members_model(self.extra@),
        }
    }
}

impl ControlResponseEnvelopeModel {
    /// The envelope with these members and no others.
    pub open spec fn of(response: ResponseModel) -> ControlResponseEnvelopeModel {
        ControlResponseEnvelopeModel {
            response,
            extra: Seq::empty(),
        }
    }

    /// The names of the members that the envelope knows.
    pub open spec fn known() -> Seq<Seq<char>> {
        seq![
            "type"@,
            "response"@,
        ]
    }

    /// The envelope that `j` carries, if it has the members of one.
    pub open spec fn read(j: JsonModel) -> Option<ControlResponseEnvelopeModel> {
        if response_at(j) is Some {
            Some(
                ControlResponseEnvelopeModel {
                    response: response_at(j).unwrap(),
                    extra: j.unknown(Self::known()),
                },
            )
        } else {
            None
        }
    }
}

impl ControlResponseEnvelope {
    pub fn new(response: Response) -> (r: ControlResponseEnvelope)
        ensures
            r@ == ControlResponseEnvelopeModel::of(response@),
    {
        ControlResponseEnvelope {
            response,
            extra: no_members(),
        }
    }

    pub fn response(&self) -> (r: &Response)
        ensures
            r@ == self@.response,
    {
        &self.response
    }

    pub fn extra(&self) -> (r: &Vec<(String, Json)>)
        ensures
            members_model(r@) == self@.extra,
    {
        &self.extra
    }

    pub fn set_response(&mut self, response: Response)
        ensures
            final(self)@ == (ControlResponseEnvelopeModel { response: response@, ..old(self)@ }),
    {
        self.response = response;
    }

    pub fn set_extra(&mut self, extra: Vec<(String, Json)>)
        ensures
            final(self)@ == (ControlResponseEnvelopeModel { extra: members_model(extra@), ..old(self)@ }),
    {
        self.extra = extra;
    }

    pub fn with_response(self, response: Response) -> (r: ControlResponseEnvelope)
        ensures
            r@ == (ControlResponseEnvelopeModel { response: response@, ..self@ }),
    {
        let mut e = self;
        e.response = response;
        e
    }

    pub fn with_extra(self, extra: Vec<(String, Json)>) -> (r: ControlResponseEnvelope)
        ensures
            r@ == (ControlResponseEnvelopeModel { extra: members_model(extra@), ..self@ }),
    {
        let mut e = self;
        e.extra = extra;
        e
    }

    /// Reads the envelope from `j`.
    pub fn from_json(j: &Json) -> (r: Option<ControlResponseEnvelope>)
        ensures
            model_opt(r) == ControlResponseEnvelopeModel::read(j@),
    {
        let response = match j.get("response") {
            Some(p) => match Response::from_json(p) {
                Some(response) => response,
                None => {
                    return None;
                },
            },
            None => {
                return None;
            },
        };
        let known = vec![
            "type",
            "response",
        ];
        proof {
            assert(names(known@) =~= ControlResponseEnvelopeModel::known());
        }
        Some(ControlResponseEnvelope { response, extra: j.unknown(&known) })
    }
}

/// One value from the child.
#[derive(Debug)]
pub enum Incoming {
    User(UserEnvelope),
    Assistant(AssistantEnvelope),
    System(SystemMessage),
    Result(ResultMessage),
    ControlRequest(ControlRequestEnvelope),
    ControlResponse(ControlResponseEnvelope),
}

pub enum IncomingModel {
    User(UserEnvelopeModel),
    Assistant(AssistantEnvelopeModel),
    System(SystemMessageModel),
    Result(ResultMessageModel),
    ControlRequest(ControlRequestEnvelopeModel),
    ControlResponse(ControlResponseEnvelopeModel),
}

impl View for Incoming {
    type V = IncomingModel;

    open spec fn view(&self) -> IncomingModel {
        match self {
            Incoming::User(m) => IncomingModel::User(m@),
            Incoming::Assistant(m) => IncomingModel::Assistant(m@),
            Incoming::System(m) => IncomingModel::System(m@),
            Incoming::Result(m) => IncomingModel::Result(m@),
            Incoming::ControlRequest(m) => IncomingModel::ControlRequest(m@),
            Incoming::ControlResponse(m) => IncomingModel::ControlResponse(m@),
        }
    }
}

impl IncomingModel {
    /// The value that `j` carries: its member `type` selects one of the six
    /// shapes, and the members of that shape must be there.
    pub open spec fn read(j: JsonModel) -> Option<IncomingModel> {
        match j.text_at("type"@) {
            None => None,
            Some(tag) => if tag == "user"@ {
                match UserEnvelopeModel::read(j) {
                    Some(m) => Some(IncomingModel::User(m)),
                    None => None,
                }
            } else if tag == "assistant"@ {
                match AssistantEnvelopeModel::read(j) {
                    Some(m) => Some(IncomingModel::Assistant(m)),
                    None => None,
                }
            } else if tag == "system"@ {
                match SystemMessageModel::read(j) {
                    Some(m) => Some(IncomingModel::System(m)),
                    None => None,
                }
            } else if tag == "result"@ {
                match ResultMessageModel::read(j) {
                    Some(m) => Some(IncomingModel::Result(m)),
                    None => None,
                }
            } else if tag == "control_request"@ {
                match ControlRequestEnvelopeModel::read(j) {
                    Some(m) => Some(IncomingModel::ControlRequest(m)),
                    None => None,
                }
            } else if tag == "control_response"@ {
                match ControlResponseEnvelopeModel::read(j) {
                    Some(m) => Some(IncomingModel::ControlResponse(m)),
                    None => None,
                }
            } else {
                None
            },
        }
    }

    /// The message of the data channel that this is, if it is one.
    pub open spec fn message(self) -> Option<MessageModel> {
        match self {
            IncomingModel::User(m) => Some(MessageModel::User(m)),
            IncomingModel::Assistant(m) => Some(MessageModel::Assistant(m)),
            IncomingModel::System(m) => Some(MessageModel::System(m)),
            IncomingModel::Result(m) => Some(MessageModel::Result(m)),
            _ => None,
        }
    }
}

impl Incoming {
    /// Reads one value from `j`, by its member `type`.
    pub fn from_json(j: &Json) -> (r: Option<Incoming>)
        ensures
            model_opt(r) == IncomingModel::read(j@),
    {
        match j.str_at("type") {
            None => None,
            Some(tag) => if same(tag, "user") {
                match UserEnvelope::from_json(j) {
                    Some(m) => Some(Incoming::User(m)),
                    None => None,
                }
            } else if same(tag, "assistant") {
                match AssistantEnvelope::from_json(j) {
                    Some(m) => Some(Incoming::Assistant(m)),
                    None => None,
                }
            } else if same(tag, "system") {
                match SystemMessage::from_json(j) {
                    Some(m) => Some(Incoming::System(m)),
                    None => None,
                }
            } else if same(tag, "result") {
                match ResultMessage::from_json(j) {
                    Some(m) => Some(Incoming::Result(m)),
                    None => None,
                }
            } else if same(tag, "control_request") {
                match ControlRequestEnvelope::from_json(j) {
                    Some(m) => Some(Incoming::ControlRequest(m)),
                    None => None,
                }
            } else if same(tag, "control_response") {
                match ControlResponseEnvelope::from_json(j) {
                    Some(m) => Some(Incoming::ControlResponse(m)),
                    None => None,
                }
            } else {
                None
            },
        }
    }

    /// The message of the data channel that this is, if it is one.
    pub fn to_message(&self) -> (r: Option<Message>)
        ensures
            model_opt(r) == self@.message(),
    {
        match self {
            Incoming::User(m) => Some(Message::User(m.clone())),
            Incoming::Assistant(m) => Some(Message::Assistant(m.clone())),
            Incoming::System(m) => Some(Message::System(m.clone())),
            Incoming::Result(m) => Some(Message::Result(m.clone())),
            _ => None,
        }
    }

    /// The control request that this is, if it is one.
    pub fn as_control_request(&self) -> (r: Option<&ControlRequestEnvelope>)
        ensures
            match r {
                Some(q) => self@ == IncomingModel::ControlRequest(q@),
                None => !(self@ is ControlRequest),
            },
    {
        match self {
            Incoming::ControlRequest(q) => Some(q),
            _ => None,
        }
    }

    /// The control response that this is, if it is one.
    pub fn as_control_response(&self) -> (r: Option<&ControlResponseEnvelope>)
        ensures
            match r {
                Some(p) => self@ == IncomingModel::ControlResponse(p@),
                None => !(self@ is ControlResponse),
            },
    {
        match self {
            Incoming::ControlResponse(p) => Some(p),
            _ => None,
        }
    }
}

} // verus!
