//! What the gateway answers: one ticket for each recipient, and the errors
//! that concern the request as a whole.

use vstd::prelude::*;

use crate::json::{
    defaulted_text, field, lookup, optional_text, read_defaulted_text, read_optional_text,
    read_required_bool, read_required_text, required_bool, required_text, Field, Json, JsonModel,
    Lookup, Member, MemberModel,
};

verus! {

/// Why the gateway refused one recipient.
#[derive(Debug, Clone, PartialEq, Eq)]
pub struct TicketDetails {
    /// The short code of the error.
    pub error: String,
    /// The push token that the error is about, where the gateway names it.
    pub expo_push_token: Option<String>,
}

/// What the gateway did with the message for one recipient.
#[derive(Debug, Clone, PartialEq, Eq)]
pub struct PushTicket {
    /// `ok` or `error`.
    pub status: String,
    /// The receipt identifier of an accepted message; empty otherwise.
    pub id: String,
    /// Present where the status is `error`.
    pub details: Option<TicketDetails>,
}

/// An error that concerns the whole request.
#[derive(Debug, Clone, PartialEq, Eq)]
pub struct ServerTicketError {
    pub code: String,
    pub message: String,
    /// Whether the same request might succeed later.
    pub is_transient: bool,
}

/// A whole answer of the gateway.
#[derive(Debug, Clone, PartialEq, Eq)]
pub struct PushTicketResponse {
    /// The tickets, in the order of the recipients they answer.
    pub data: Vec<PushTicket>,
    pub errors: Vec<ServerTicketError>,
}

/// Where a document departs from the shape of the gateway's answers.
#[derive(Debug, Clone, Copy, PartialEq, Eq)]
pub enum Misfit {
    /// The document is not an object.
    Document,
    /// `data` is left out, given twice, or no array.
    Data,
    /// The item of `data` at this position is no ticket, and it is the first
    /// such.
    Ticket(usize),
    /// `errors` is given twice or is no array.
    Errors,
    /// The item of `errors` at this position is no error, and it is the
    /// first such.
    ServerError(usize),
}

/// What a [`TicketDetails`] stands for.
pub ghost struct TicketDetailsModel {
    pub error: Seq<char>,
    pub expo_push_token: Option<Seq<char>>,
}

/// What a [`PushTicket`] stands for.
pub ghost struct PushTicketModel {
    pub status: Seq<char>,
    pub id: Seq<char>,
    pub details: Option<TicketDetailsModel>,
}

/// What a [`ServerTicketError`] stands for.
pub ghost struct ServerTicketErrorModel {
    pub code: Seq<char>,
    pub message: Seq<char>,
    pub is_transient: bool,
}

/// What a [`PushTicketResponse`] stands for.
pub ghost struct PushTicketResponseModel {
    pub data: Seq<PushTicketModel>,
    pub errors: Seq<ServerTicketErrorModel>,
}

impl View for TicketDetails {
    type V = TicketDetailsModel;

    open spec fn view(&self) -> TicketDetailsModel {
        TicketDetailsModel {
            error: self.error@,
            expo_push_token: self.expo_push_token.deep_view(),
        }
    }
}

impl DeepView for TicketDetails {
    type V = TicketDetailsModel;

    open spec fn deep_view(&self) -> TicketDetailsModel {
        self@
    }
}

impl View for PushTicket {
    type V = PushTicketModel;

    open spec fn view(&self) -> PushTicketModel {
        PushTicketModel { status: self.status@, id: self.id@, details: self.details.deep_view() }
    }
}

impl DeepView for PushTicket {
    type V = PushTicketModel;

    open spec fn deep_view(&self) -> PushTicketModel {
        self@
    }
}

impl View for ServerTicketError {
    type V = ServerTicketErrorModel;

    open spec fn view(&self) -> ServerTicketErrorModel {
        ServerTicketErrorModel {
            code: self.code@,
            message: self.message@,
            is_transient: self.is_transient,
        }
    }
}

impl DeepView for ServerTicketError {
    type V = ServerTicketErrorModel;

    open spec fn deep_view(&self) -> ServerTicketErrorModel {
        self@
    }
}

impl View for PushTicketResponse {
    type V = PushTicketResponseModel;

    open spec fn view(&self) -> PushTicketResponseModel {
        PushTicketResponseModel { data: self.data.deep_view(), errors: self.errors.deep_view() }
    }
}

impl DeepView for PushTicketResponse {
    type V = PushTicketResponseModel;

    open spec fn deep_view(&self) -> PushTicketResponseModel {
        self@
    }
}

impl TicketDetailsModel {
    /// The details that a JSON document describes, if it describes any: an
    /// object with a string under `error` and, under `expoPushToken`,
    /// nothing, `null` or a string.
    pub open spec fn of_wire(json: JsonModel) -> Option<TicketDetailsModel> {
        match json {
            JsonModel::Object(members) => {
                let error = required_text(members, "error"@);
                let token = optional_text(members, "expoPushToken"@);
                if error is Some && token is Some {
                    Some(TicketDetailsModel { error: error->0, expo_push_token: token->0 })
                } else {
                    None
                }
            },
            _ => None,
        }
    }
}

/// The details that the members of a ticket hold under `details`, where
/// leaving the key out and `null` both mean that there are none; the outer
/// `None` says that the members do not fit.
pub open spec fn optional_details(members: Seq<MemberModel>) -> Option<Option<TicketDetailsModel>> {
    match field(members, "details"@) {
        Field::Absent => Some(None),
        Field::Single(JsonModel::Null) => Some(None),
        Field::Single(value) => match TicketDetailsModel::of_wire(value) {
            Some(details) => Some(Some(details)),
            None => None,
        },
        Field::Repeated => None,
    }
}

impl PushTicketModel {
    /// The ticket that a JSON document describes, if it describes one: an
    /// object with a string under `status`, under `id` nothing or a string,
    /// and under `details` nothing, `null` or details.
    pub open spec fn of_wire(json: JsonModel) -> Option<PushTicketModel> {
        match json {
            JsonModel::Object(members) => {
                let status = required_text(members, "status"@);
                let id = defaulted_text(members, "id"@);
                let details = optional_details(members);
                if status is Some && id is Some && details is Some {
                    Some(PushTicketModel { status: status->0, id: id->0, details: details->0 })
                } else {
                    None
                }
            },
            _ => None,
        }
    }

    /// The tickets that the items of an array describe, if each describes
    /// one: as many, in the same order.
    pub open spec fn list_of_wire(items: Seq<JsonModel>) -> Option<Seq<PushTicketModel>> {
        if forall|i: int| 0 <= i < items.len() ==> Self::of_wire(#[trigger] items[i]) is Some {
            Some(Seq::new(items.len(), |i: int| Self::of_wire(items[i])->0))
        } else {
            None
        }
    }
}

impl ServerTicketErrorModel {
    /// The error that a JSON document describes, if it describes one: an
    /// object with strings under `code` and `message` and a boolean under
    /// `isTransient`.
    pub open spec fn of_wire(json: JsonModel) -> Option<ServerTicketErrorModel> {
        match json {
            JsonModel::Object(members) => {
                let code = required_text(members, "code"@);
                let message = required_text(members, "message"@);
                let is_transient = required_bool(members, "isTransient"@);
                if code is Some && message is Some && is_transient is Some {
                    Some(
                        ServerTicketErrorModel {
                            code: code->0,
                            message: message->0,
                            is_transient: is_transient->0,
                        },
                    )
                } else {
                    None
                }
            },
            _ => None,
        }
    }

    /// The errors that the items of an array describe, if each describes
    /// one: as many, in the same order.
    pub open spec fn list_of_wire(items: Seq<JsonModel>) -> Option<Seq<ServerTicketErrorModel>> {
        if forall|i: int| 0 <= i < items.len() ==> Self::of_wire(#[trigger] items[i]) is Some {
            Some(Seq::new(items.len(), |i: int| Self::of_wire(items[i])->0))
        } else {
            None
        }
    }
}

/// Whether a document describes a ticket.
pub open spec fn is_ticket() -> spec_fn(JsonModel) -> bool {
    |json: JsonModel| PushTicketModel::of_wire(json) is Some
}

/// Whether a document describes an error of the whole request.
pub open spec fn is_server_error() -> spec_fn(JsonModel) -> bool {
    |json: JsonModel| ServerTicketErrorModel::of_wire(json) is Some
}

/// The position of the first item that does not fit; the number of items
/// where every one fits.
pub open spec fn first_unfit(items: Seq<JsonModel>, fits: spec_fn(JsonModel) -> bool) -> nat
    decreases items.len(),
{
    if items.len() == 0 || !fits(items.first()) {
        0
    } else {
        1 + first_unfit(items.drop_first(), fits)
    }
}

/// [`first_unfit`] is what its name says: every item before it fits, and
/// the item at it, where there is one, does not.
pub proof fn lemma_first_unfit(items: Seq<JsonModel>, fits: spec_fn(JsonModel) -> bool)
    ensures
        first_unfit(items, fits) <= items.len(),
        forall|j: int| 0 <= j < first_unfit(items, fits) ==> fits(#[trigger] items[j]),
        first_unfit(items, fits) < items.len() ==> !fits(items[first_unfit(items, fits) as int]),
    decreases items.len(),
{
    if items.len() > 0 && fits(items.first()) {
        let rest = items.drop_first();
        lemma_first_unfit(rest, fits);
        assert forall|j: int| 0 <= j < first_unfit(items, fits) implies fits(
            #[trigger] items[j],
        ) by {
            if j > 0 {
                assert(items[j] == rest[j - 1]);
            }
        }
        if first_unfit(items, fits) < items.len() {
            assert(items[first_unfit(items, fits) as int] == rest[first_unfit(rest, fits) as int]);
        }
    }
}

/// The tickets that the members of an answer hold under `data`, which must
/// occur once and hold an array of tickets.
pub open spec fn required_tickets(members: Seq<MemberModel>) -> Option<Seq<PushTicketModel>> {
    match field(members, "data"@) {
        Field::Single(JsonModel::Array(items)) => PushTicketModel::list_of_wire(items),
        _ => None,
    }
}

/// The errors that the members of an answer hold under `errors`: none where
/// the key is left out, else those of the array that it must hold.
pub open spec fn defaulted_errors(members: Seq<MemberModel>) -> Option<
    Seq<ServerTicketErrorModel>,
> {
    match field(members, "errors"@) {
        Field::Absent => Some(Seq::empty()),
        Field::Single(JsonModel::Array(items)) => ServerTicketErrorModel::list_of_wire(items),
        _ => None,
    }
}

impl PushTicketResponseModel {
    /// The answer that a JSON document describes, if it describes one: an
    /// object with an array of tickets under `data` and, under `errors`,
    /// nothing or an array of errors. Members under other keys are passed
    /// over; a known key given twice is refused.
    pub open spec fn of_wire(json: JsonModel) -> Option<PushTicketResponseModel> {
        match json {
            JsonModel::Object(members) => {
                let data = required_tickets(members);
                let errors = defaulted_errors(members);
                if data is Some && errors is Some {
                    Some(PushTicketResponseModel { data: data->0, errors: errors->0 })
                } else {
                    None
                }
            },
            _ => None,
        }
    }

    /// Where a JSON document first departs from the shape of an answer:
    /// nowhere exactly if it describes one.
    pub open spec fn misfit(json: JsonModel) -> Option<Misfit> {
        match json {
            JsonModel::Object(members) => match field(members, "data"@) {
                Field::Single(JsonModel::Array(tickets)) => {
                    if first_unfit(tickets, is_ticket()) < tickets.len() {
                        Some(Misfit::Ticket(first_unfit(tickets, is_ticket()) as usize))
                    } else {
                        match field(members, "errors"@) {
                            Field::Absent => None,
                            Field::Single(JsonModel::Array(errors)) => {
                                if first_unfit(errors, is_server_error()) < errors.len() {
                                    Some(
                                        Misfit::ServerError(
                                            first_unfit(errors, is_server_error()) as usize,
                                        ),
                                    )
                                } else {
                                    None
                                }
                            },
                            _ => Some(Misfit::Errors),
                        }
                    }
                },
                _ => Some(Misfit::Data),
            },
            _ => Some(Misfit::Document),
        }
    }
}

impl TicketDetails {
    /// The details that a JSON document describes, if it describes any.
    pub fn from_json(json: &Json) -> (details: Option<TicketDetails>)
        ensures
            details.deep_view() == TicketDetailsModel::of_wire(json@),
    {
        let members = match json.as_object() {
            Some(members) => members,
            None => {
                return None;
            },
        };
        let error = match read_required_text(members, "error") {
            Some(error) => error,
            None => {
                return None;
            },
        };
        let expo_push_token = match read_optional_text(members, "expoPushToken") {
            Some(token) => token,
            None => {
                return None;
            },
        };
        Some(TicketDetails { error, expo_push_token })
    }
}

/// Reads the details that the members of a ticket may hold.
fn read_optional_details(members: &Vec<Member>) -> (details: Option<Option<TicketDetails>>)
    ensures
        details.deep_view() == optional_details(members.deep_view()),
{
    match lookup(members, "details") {
        Lookup::Absent => Some(None),
        Lookup::Single(Json::Null) => Some(None),
        Lookup::Single(value) => match TicketDetails::from_json(value) {
            Some(details) => Some(Some(details)),
            None => None,
        },
        Lookup::Repeated => None,
    }
}

impl PushTicket {
    /// The ticket that a JSON document describes, if it describes one.
    pub fn from_json(json: &Json) -> (ticket: Option<PushTicket>)
        ensures
            ticket.deep_view() == PushTicketModel::of_wire(json@),
    {
        let members = match json.as_object() {
            Some(members) => members,
            None => {
                return None;
            },
        };
        let status = match read_required_text(members, "status") {
            Some(status) => status,
            None => {
                return None;
            },
        };
        let id = match read_defaulted_text(members, "id") {
            Some(id) => id,
            None => {
                return None;
            },
        };
        let details = match read_optional_details(members) {
            Some(details) => details,
            None => {
                return None;
            },
        };
        Some(PushTicket { status, id, details })
    }

    /// The tickets that the items of an array describe, or the position of
    /// the first item that describes none.
    pub fn list_from_json(items: &Vec<Json>) -> (tickets: Result<Vec<PushTicket>, usize>)
        ensures
            match tickets {
                Ok(list) => PushTicketModel::list_of_wire(items.deep_view()) == Some(
                    list.deep_view(),
                ),
                Err(at) => {
                    &&& PushTicketModel::list_of_wire(items.deep_view()) is None
                    &&& at < items.len()
                    &&& at == first_unfit(items.deep_view(), is_ticket())
                },
            },
    {
        let ghost all = items.deep_view();
        proof {
            lemma_first_unfit(all, is_ticket());
        }
        let mut tickets: Vec<PushTicket> = Vec::new();
        let mut i: usize = 0;
        while i < items.len()
            invariant
                i <= items.len(),
                all == items.deep_view(),
                tickets@.len() == i,
                forall|k: int|
                    0 <= k < i ==> PushTicketModel::of_wire(#[trigger] all[k]) == Some(
                        tickets@[k]@,
                    ),
                first_unfit(all, is_ticket()) <= all.len(),
                forall|j: int|
                    0 <= j < first_unfit(all, is_ticket()) ==> is_ticket()(#[trigger] all[j]),
                first_unfit(all, is_ticket()) < all.len() ==> !is_ticket()(
                    all[first_unfit(all, is_ticket()) as int],
                ),
            decreases items.len() - i,
        {
            match PushTicket::from_json(&items[i]) {
                Some(ticket) => {
                    tickets.push(ticket);
                },
                None => {
                    assert(!is_ticket()(all[i as int]));
                    return Err(i);
                },
            }
            i += 1;
        }
        assert(PushTicketModel::list_of_wire(all) is Some);
        assert(tickets.deep_view() =~= PushTicketModel::list_of_wire(all)->0);
        Ok(tickets)
    }
}

impl ServerTicketError {
    /// The error that a JSON document describes, if it describes one.
    pub fn from_json(json: &Json) -> (error: Option<ServerTicketError>)
        ensures
            error.deep_view() == ServerTicketErrorModel::of_wire(json@),
    {
        let members = match json.as_object() {
            Some(members) => members,
            None => {
                return None;
            },
        };
        let code = match read_required_text(members, "code") {
            Some(code) => code,
            None => {
                return None;
            },
        };
        let message = match read_required_text(members, "message") {
            Some(message) => message,
            None => {
                return None;
            },
        };
        let is_transient = match read_required_bool(members, "isTransient") {
            Some(flag) => flag,
            None => {
                return None;
            },
        };
        Some(ServerTicketError { code, message, is_transient })
    }

    /// The errors that the items of an array describe, or the position of
    /// the first item that describes none.
    pub fn list_from_json(items: &Vec<Json>) -> (errors: Result<Vec<ServerTicketError>, usize>)
        ensures
            match errors {
                Ok(list) => ServerTicketErrorModel::list_of_wire(items.deep_view()) == Some(
                    list.deep_view(),
                ),
                Err(at) => {
                    &&& ServerTicketErrorModel::list_of_wire(items.deep_view()) is None
                    &&& at < items.len()
                    &&& at == first_unfit(items.deep_view(), is_server_error())
                },
            },
    {
        let ghost all = items.deep_view();
        proof {
            lemma_first_unfit(all, is_server_error());
        }
        let mut errors: Vec<ServerTicketError> = Vec::new();
        let mut i: usize = 0;
        while i < items.len()
            invariant
                i <= items.len(),
                all == items.deep_view(),
                errors@.len() == i,
                forall|k: int|
                    0 <= k < i ==> ServerTicketErrorModel::of_wire(#[trigger] all[k]) == Some(
                        errors@[k]@,
                    ),
                first_unfit(all, is_server_error()) <= all.len(),
                forall|j: int|
                    0 <= j < first_unfit(all, is_server_error()) ==> is_server_error()(
                        #[trigger] all[j],
                    ),
                first_unfit(all, is_server_error()) < all.len() ==> !is_server_error()(
                    all[first_unfit(all, is_server_error()) as int],
                ),
            decreases items.len() - i,
        {
            match ServerTicketError::from_json(&items[i]) {
                Some(error) => {
                    errors.push(error);
                },
                None => {
                    assert(!is_server_error()(all[i as int]));
                    return Err(i);
                },
            }
            i += 1;
        }
        assert(ServerTicketErrorModel::list_of_wire(all) is Some);
        assert(errors.deep_view() =~= ServerTicketErrorModel::list_of_wire(all)->0);
        Ok(errors)
    }
}

impl PushTicketResponse {
    /// The answer that a JSON document describes, or where the document
    /// first departs from the shape of an answer.
    pub fn from_json(json: &Json) -> (response: Result<PushTicketResponse, Misfit>)
        ensures
            match response {
                Ok(answer) => PushTicketResponseModel::of_wire(json@) == Some(answer@),
                Err(misfit) => {
                    &&& PushTicketResponseModel::of_wire(json@) is None
                    &&& PushTicketResponseModel::misfit(json@) == Some(misfit)
                },
            },
    {
        let members = match json.as_object() {
            Some(members) => members,
            None => {
                return Err(Misfit::Document);
            },
        };
        let tickets = match lookup(members, "data") {
            Lookup::Single(value) => match value.as_array() {
                Some(tickets) => tickets,
                None => {
                    return Err(Misfit::Data);
                },
            },
            _ => {
                return Err(Misfit::Data);
            },
        };
        let data = match PushTicket::list_from_json(tickets) {
            Ok(data) => data,
            Err(at) => {
                return Err(Misfit::Ticket(at));
            },
        };
        proof {
            lemma_first_unfit(tickets.deep_view(), is_ticket());
        }
        let errors = match lookup(members, "errors") {
            Lookup::Absent => {
                let none: Vec<ServerTicketError> = Vec::new();
                assert(none.deep_view() =~= Seq::<ServerTicketErrorModel>::empty());
                none
            },
            Lookup::Single(value) => match value.as_array() {
                Some(items) => match ServerTicketError::list_from_json(items) {
                    Ok(errors) => errors,
                    Err(at) => {
                        return Err(Misfit::ServerError(at));
                    },
                },
                None => {
                    return Err(Misfit::Errors);
                },
            },
            Lookup::Repeated => {
                return Err(Misfit::Errors);
            },
        };
        Ok(PushTicketResponse { data, errors })
    }
}

} // verus!
