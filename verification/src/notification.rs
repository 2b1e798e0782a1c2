//! One outbound push message, the builder that fills it in, and the JSON
//! object that the gateway receives for it.

use vstd::prelude::*;

use crate::json::{
    optional_text, optional_u32, read_optional_text, read_optional_u32, read_required_text_list,
    required_text_list, Json, JsonModel, Member, MemberModel,
};
use crate::text::same_text;

verus! {

/// How urgently the gateway should deliver a message.
#[derive(Debug, Clone, Copy, PartialEq, Eq, Structural)]
pub enum Priority {
    Default,
    Normal,
    High,
}

impl Priority {
    /// The word that the gateway knows this priority by.
    pub open spec fn text(self) -> Seq<char> {
        match self {
            Priority::Default => "default"@,
            Priority::Normal => "normal"@,
            Priority::High => "high"@,
        }
    }

    /// The priority that `text` names, if it names one.
    pub open spec fn of_text(text: Seq<char>) -> Option<Priority> {
        if text == "default"@ {
            Some(Priority::Default)
        } else if text == "normal"@ {
            Some(Priority::Normal)
        } else if text == "high"@ {
            Some(Priority::High)
        } else {
            None
        }
    }

    /// The word that the gateway knows this priority by.
    pub fn as_str(&self) -> (word: &'static str)
        ensures
            word@ == self.text(),
    {
        match self {
            Priority::Default => "default",
            Priority::Normal => "normal",
            Priority::High => "high",
        }
    }

    /// The priority that `text` names: one of `default`, `normal` and `high`,
    /// in lower case.
    pub fn parse(text: &str) -> (priority: Option<Priority>)
        ensures
            priority == Priority::of_text(text@),
    {
        if same_text(text, "default") {
            Some(Priority::Default)
        } else if same_text(text, "normal") {
            Some(Priority::Normal)
        } else if same_text(text, "high") {
            Some(Priority::High)
        } else {
            None
        }
    }
}

/// One push message, addressed to one or more devices.
#[derive(Debug, Clone, PartialEq, Eq)]
pub struct Notification {
    pub to: Vec<String>,
    pub data: Option<String>,
    pub title: Option<String>,
    pub body: Option<String>,
    pub ttl: Option<u32>,
    pub expiration: Option<u32>,
    pub priority: Option<Priority>,
    pub subtitle: Option<String>,
    pub sound: Option<String>,
    pub badge: Option<u32>,
    pub channel_id: Option<String>,
    pub category_id: Option<String>,
}

/// What a [`Notification`] stands for.
pub ghost struct NotificationModel {
    pub to: Seq<Seq<char>>,
    pub data: Option<Seq<char>>,
    pub title: Option<Seq<char>>,
    pub body: Option<Seq<char>>,
    pub ttl: Option<u32>,
    pub expiration: Option<u32>,
    pub priority: Option<Priority>,
    pub subtitle: Option<Seq<char>>,
    pub sound: Option<Seq<char>>,
    pub badge: Option<u32>,
    pub channel_id: Option<Seq<char>>,
    pub category_id: Option<Seq<char>>,
}

impl View for Notification {
    type V = NotificationModel;

    open spec fn view(&self) -> NotificationModel {
        NotificationModel {
            to: self.to.deep_view(),
            data: self.data.deep_view(),
            title: self.title.deep_view(),
            body: self.body.deep_view(),
            ttl: self.ttl,
            expiration: self.expiration,
            priority: self.priority,
            subtitle: self.subtitle.deep_view(),
            sound: self.sound.deep_view(),
            badge: self.badge,
            channel_id: self.channel_id.deep_view(),
            category_id: self.category_id.deep_view(),
        }
    }
}

impl DeepView for Notification {
    type V = NotificationModel;

    open spec fn deep_view(&self) -> NotificationModel {
        self@
    }
}

/// The member that an optional text becomes: none where it is absent.
pub open spec fn text_member(key: Seq<char>, value: Option<Seq<char>>) -> Seq<MemberModel> {
    match value {
        Some(t) => seq![MemberModel { key, value: JsonModel::Text(t) }],
        None => Seq::empty(),
    }
}

/// The member that an optional number becomes: none where it is absent.
pub open spec fn number_member(key: Seq<char>, value: Option<u32>) -> Seq<MemberModel> {
    match value {
        Some(n) => seq![MemberModel { key, value: JsonModel::Integer(n as int) }],
        None => Seq::empty(),
    }
}

/// The word of an optional priority.
pub open spec fn priority_text(priority: Option<Priority>) -> Option<Seq<char>> {
    match priority {
        Some(p) => Some(p.text()),
        None => None,
    }
}

/// The priority that the members name under `priority`; the outer `None`
/// says that the members do not fit.
pub open spec fn optional_priority(members: Seq<MemberModel>) -> Option<Option<Priority>> {
    match optional_text(members, "priority"@) {
        Some(Some(word)) => match Priority::of_text(word) {
            Some(p) => Some(Some(p)),
            None => None,
        },
        Some(None) => Some(None),
        None => None,
    }
}

impl NotificationModel {
    /// A message to `to` with every optional field absent.
    pub open spec fn bare(to: Seq<Seq<char>>) -> NotificationModel {
        NotificationModel {
            to,
            data: None,
            title: None,
            body: None,
            ttl: None,
            expiration: None,
            priority: None,
            subtitle: None,
            sound: None,
            badge: None,
            channel_id: None,
            category_id: None,
        }
    }

    /// A message names at least one recipient.
    pub open spec fn has_recipient(self) -> bool {
        self.to.len() > 0
    }

    /// The members of the object sent for this message: the recipients, then
    /// one member for each field that is set, and none for one that is not.
    pub open spec fn wire_members(self) -> Seq<MemberModel> {
        seq![MemberModel { key: "to"@, value: JsonModel::text_list(self.to) }]
            + text_member("data"@, self.data)
            + text_member("title"@, self.title)
            + text_member("body"@, self.body)
            + number_member("ttl"@, self.ttl)
            + number_member("expiration"@, self.expiration)
            + text_member("priority"@, priority_text(self.priority))
            + text_member("subtitle"@, self.subtitle)
            + text_member("sound"@, self.sound)
            + number_member("badge"@, self.badge)
            + text_member("channelId"@, self.channel_id)
            + text_member("categoryId"@, self.category_id)
    }

    /// The JSON object sent for this message.
    pub open spec fn wire(self) -> JsonModel {
        JsonModel::Object(self.wire_members())
    }

    /// The message that a JSON document describes, if it describes one: an
    /// object with a non-empty array of strings under `to` and, for each
    /// other field, nothing, `null` or a value of the field's type. Members
    /// under other keys are passed over; a field given twice is refused.
    pub open spec fn of_wire(json: JsonModel) -> Option<NotificationModel> {
        match json {
            JsonModel::Object(members) => {
                let to = required_text_list(members, "to"@);
                let data = optional_text(members, "data"@);
                let title = optional_text(members, "title"@);
                let body = optional_text(members, "body"@);
                let ttl = optional_u32(members, "ttl"@);
                let expiration = optional_u32(members, "expiration"@);
                let priority = optional_priority(members);
                let subtitle = optional_text(members, "subtitle"@);
                let sound = optional_text(members, "sound"@);
                let badge = optional_u32(members, "badge"@);
                let channel_id = optional_text(members, "channelId"@);
                let category_id = optional_text(members, "categoryId"@);
                if to is Some && to->0.len() > 0 && data is Some && title is Some && body is Some
                    && ttl is Some && expiration is Some && priority is Some && subtitle is Some
                    && sound is Some && badge is Some && channel_id is Some
                    && category_id is Some {
                    Some(
                        NotificationModel {
                            to: to->0,
                            data: data->0,
                            title: title->0,
                            body: body->0,
                            ttl: ttl->0,
                            expiration: expiration->0,
                            priority: priority->0,
                            subtitle: subtitle->0,
                            sound: sound->0,
                            badge: badge->0,
                            channel_id: channel_id->0,
                            category_id: category_id->0,
                        },
                    )
                } else {
                    None
                }
            },
            _ => None,
        }
    }
}

/// Appends the member for an optional text to `members`.
fn push_text(members: &mut Vec<Member>, key: &str, value: &Option<String>)
    ensures
        final(members).deep_view() == old(members).deep_view() + text_member(
            key@,
            value.deep_view(),
        ),
{
    match value {
        Some(t) => {
            members.push(Member { key: key.to_owned(), value: Json::Text(t.clone()) });
        },
        None => {},
    }
    assert(members.deep_view() =~= old(members).deep_view() + text_member(
        key@,
        value.deep_view(),
    ));
}

/// Appends the member for an optional number to `members`.
fn push_number(members: &mut Vec<Member>, key: &str, value: Option<u32>)
    ensures
        final(members).deep_view() == old(members).deep_view() + number_member(key@, value),
{
    match value {
        Some(n) => {
            members.push(Member { key: key.to_owned(), value: Json::Integer(n as i128) });
        },
        None => {},
    }
    assert(members.deep_view() =~= old(members).deep_view() + number_member(key@, value));
}

impl Notification {
    /// A message to the given push tokens; everything else is left out.
    pub fn new(to: Vec<String>) -> (n: Notification)
        requires
            to@.len() > 0,
        ensures
            n@ == NotificationModel::bare(to.deep_view()),
            n@.has_recipient(),
    {
        Notification {
            to,
            data: None,
            title: None,
            body: None,
            ttl: None,
            expiration: None,
            priority: None,
            subtitle: None,
            sound: None,
            badge: None,
            channel_id: None,
            category_id: None,
        }
    }

    /// Sets the payload handed to the receiving app; the other fields stay as they are.
    pub fn with_data(&mut self, data: String) -> (n: &mut Self)
        ensures
            n@ == (NotificationModel { data: Some(data@), ..old(self)@ }),
            *final(self) == *final(n),
    {
        self.data = Some(data);
        self
    }

    /// Sets the title shown with the message; the other fields stay as they are.
    pub fn with_title(&mut self, title: String) -> (n: &mut Self)
        ensures
            n@ == (NotificationModel { title: Some(title@), ..old(self)@ }),
            *final(self) == *final(n),
    {
        self.title = Some(title);
        self
    }

    /// Sets the text of the message; the other fields stay as they are.
    pub fn with_body(&mut self, body: String) -> (n: &mut Self)
        ensures
            n@ == (NotificationModel { body: Some(body@), ..old(self)@ }),
            *final(self) == *final(n),
    {
        self.body = Some(body);
        self
    }

    /// Sets the number of seconds for which the message may wait for delivery; the other fields stay as they are.
    pub fn with_ttl(&mut self, ttl: u32) -> (n: &mut Self)
        ensures
            n@ == (NotificationModel { ttl: Some(ttl), ..old(self)@ }),
            *final(self) == *final(n),
    {
        self.ttl = Some(ttl);
        self
    }

    /// Sets the time, in seconds since the epoch, after which the message is dropped; the other fields stay as they are.
    pub fn with_expiration(&mut self, expiration: u32) -> (n: &mut Self)
        ensures
            n@ == (NotificationModel { expiration: Some(expiration), ..old(self)@ }),
            *final(self) == *final(n),
    {
        self.expiration = Some(expiration);
        self
    }

    /// Sets the delivery priority; the other fields stay as they are.
    pub fn with_priority(&mut self, priority: Priority) -> (n: &mut Self)
        ensures
            n@ == (NotificationModel { priority: Some(priority), ..old(self)@ }),
            *final(self) == *final(n),
    {
        self.priority = Some(priority);
        self
    }

    /// Sets the subtitle shown below the title; the other fields stay as they are.
    pub fn with_subtitle(&mut self, subtitle: String) -> (n: &mut Self)
        ensures
            n@ == (NotificationModel { subtitle: Some(subtitle@), ..old(self)@ }),
            *final(self) == *final(n),
    {
        self.subtitle = Some(subtitle);
        self
    }

    /// Sets the name of the sound played on arrival; the other fields stay as they are.
    pub fn with_sound(&mut self, sound: String) -> (n: &mut Self)
        ensures
            n@ == (NotificationModel { sound: Some(sound@), ..old(self)@ }),
            *final(self) == *final(n),
    {
        self.sound = Some(sound);
        self
    }

    /// Sets the number shown on the app icon; the other fields stay as they are.
    pub fn with_badge(&mut self, badge: u32) -> (n: &mut Self)
        ensures
            n@ == (NotificationModel { badge: Some(badge), ..old(self)@ }),
            *final(self) == *final(n),
    {
        self.badge = Some(badge);
        self
    }

    /// Sets the channel through which the message is shown; the other fields stay as they are.
    pub fn with_channel_id(&mut self, channel_id: String) -> (n: &mut Self)
        ensures
            n@ == (NotificationModel { channel_id: Some(channel_id@), ..old(self)@ }),
            *final(self) == *final(n),
    {
        self.channel_id = Some(channel_id);
        self
    }

    /// Sets the category that the message belongs to; the other fields stay as they are.
    pub fn with_category_id(&mut self, category_id: String) -> (n: &mut Self)
        ensures
            n@ == (NotificationModel { category_id: Some(category_id@), ..old(self)@ }),
            *final(self) == *final(n),
    {
        self.category_id = Some(category_id);
        self
    }

    /// The JSON object that the gateway receives for this message.
    pub fn to_json(&self) -> (json: Json)
        ensures
            json@ == self@.wire(),
    {
        let mut members: Vec<Member> = Vec::new();
        members.push(Member { key: "to".to_owned(), value: Json::text_list(&self.to) });
        assert(members.deep_view() =~= seq![
            MemberModel { key: "to"@, value: JsonModel::text_list(self@.to) },
        ]);
        push_text(&mut members, "data", &self.data);
        push_text(&mut members, "title", &self.title);
        push_text(&mut members, "body", &self.body);
        push_number(&mut members, "ttl", self.ttl);
        push_number(&mut members, "expiration", self.expiration);
        let word = match self.priority {
            Some(p) => Some(p.as_str().to_owned()),
            None => None,
        };
        push_text(&mut members, "priority", &word);
        push_text(&mut members, "subtitle", &self.subtitle);
        push_text(&mut members, "sound", &self.sound);
        push_number(&mut members, "badge", self.badge);
        push_text(&mut members, "channelId", &self.channel_id);
        push_text(&mut members, "categoryId", &self.category_id);
        Json::object(members)
    }

    /// The message that a JSON document describes, if it describes one.
    pub fn from_json(json: &Json) -> (n: Option<Notification>)
        ensures
            n.deep_view() == NotificationModel::of_wire(json@),
    {
        let members = match json.as_object() {
            Some(members) => members,
            None => {
                return None;
            },
        };
        let to = match read_required_text_list(members, "to") {
            Some(to) => to,
            None => {
                return None;
            },
        };
        if to.len() == 0 {
            return None;
        }
        let data = match read_optional_text(members, "data") {
            Some(value) => value,
            None => {
                return None;
            },
        };
        let title = match read_optional_text(members, "title") {
            Some(value) => value,
            None => {
                return None;
            },
        };
        let body = match read_optional_text(members, "body") {
            Some(value) => value,
            None => {
                return None;
            },
        };
        let ttl = match read_optional_u32(members, "ttl") {
            Some(value) => value,
            None => {
                return None;
            },
        };
        let expiration = match read_optional_u32(members, "expiration") {
            Some(value) => value,
            None => {
                return None;
            },
        };
        let priority = match read_optional_text(members, "priority") {
            Some(Some(word)) => match Priority::parse(word.as_str()) {
                Some(p) => Some(p),
                None => {
                    return None;
                },
            },
            Some(None) => None,
            None => {
                return None;
            },
        };
        let subtitle = match read_optional_text(members, "subtitle") {
            Some(value) => value,
            None => {
                return None;
            },
        };
        let sound = match read_optional_text(members, "sound") {
            Some(value) => value,
            None => {
                return None;
            },
        };
        let badge = match read_optional_u32(members, "badge") {
            Some(value) => value,
            None => {
                return None;
            },
        };
        let channel_id = match read_optional_text(members, "channelId") {
            Some(value) => value,
            None => {
                return None;
            },
        };
        let category_id = match read_optional_text(members, "categoryId") {
            Some(value) => value,
            None => {
                return None;
            },
        };
        Some(
            Notification {
                to,
                data,
                title,
                body,
                ttl,
                expiration,
                priority,
                subtitle,
                sound,
                badge,
                channel_id,
                category_id,
            },
        )
    }
}

} // verus!
