//! What holds of every message and of the JSON object sent for it.

use vstd::prelude::*;

use crate::json::{
    field, lemma_values_of_concat, lemma_values_of_push, values_of, Field, JsonModel, MemberModel,
};
use crate::notification::{
    number_member, priority_text, text_member, NotificationModel, Priority,
};
use crate::ticket::{
    is_server_error, is_ticket, lemma_first_unfit, PushTicketResponseModel,
};

verus! {

/// What an object with one member for an optional text says about its key.
pub open spec fn text_field(value: Option<Seq<char>>) -> Field {
    match value {
        Some(t) => Field::Single(JsonModel::Text(t)),
        None => Field::Absent,
    }
}

/// What an object with one member for an optional number says about its key.
pub open spec fn number_field(value: Option<u32>) -> Field {
    match value {
        Some(n) => Field::Single(JsonModel::Integer(n as int)),
        None => Field::Absent,
    }
}

impl NotificationModel {
    /// What the object sent for this message should say about `key`: the
    /// recipients under `to`, the value of each field that is set under that
    /// field's key, and nothing else.
    pub open spec fn wire_field(self, key: Seq<char>) -> Field {
        if key == "to"@ {
            Field::Single(JsonModel::text_list(self.to))
        } else if key == "data"@ {
            text_field(self.data)
        } else if key == "title"@ {
            text_field(self.title)
        } else if key == "body"@ {
            text_field(self.body)
        } else if key == "ttl"@ {
            number_field(self.ttl)
        } else if key == "expiration"@ {
            number_field(self.expiration)
        } else if key == "priority"@ {
            text_field(priority_text(self.priority))
        } else if key == "subtitle"@ {
            text_field(self.subtitle)
        } else if key == "sound"@ {
            text_field(self.sound)
        } else if key == "badge"@ {
            number_field(self.badge)
        } else if key == "channelId"@ {
            text_field(self.channel_id)
        } else if key == "categoryId"@ {
            text_field(self.category_id)
        } else {
            Field::Absent
        }
    }
}

/// The twelve keys of a message differ from one another.
proof fn lemma_keys_differ()
    ensures
        "to"@.len() == 2,
        "data"@.len() == 4 && "data"@[0] == 'd',
        "title"@.len() == 5 && "title"@[0] == 't',
        "body"@.len() == 4 && "body"@[0] == 'b',
        "ttl"@.len() == 3,
        "expiration"@.len() == 10 && "expiration"@[0] == 'e',
        "priority"@.len() == 8 && "priority"@[0] == 'p',
        "subtitle"@.len() == 8 && "subtitle"@[0] == 's',
        "sound"@.len() == 5 && "sound"@[0] == 's',
        "badge"@.len() == 5 && "badge"@[0] == 'b',
        "channelId"@.len() == 9,
        "categoryId"@.len() == 10 && "categoryId"@[0] == 'c',
{
    reveal_strlit("to");
    reveal_strlit("data");
    reveal_strlit("title");
    reveal_strlit("body");
    reveal_strlit("ttl");
    reveal_strlit("expiration");
    reveal_strlit("priority");
    reveal_strlit("subtitle");
    reveal_strlit("sound");
    reveal_strlit("badge");
    reveal_strlit("channelId");
    reveal_strlit("categoryId");
}

/// The word of a priority names that priority and no other.
pub proof fn theorem_priority_words(priority: Priority)
    ensures
        Priority::of_text(priority.text()) == Some(priority),
{
    reveal_strlit("default");
    reveal_strlit("normal");
    reveal_strlit("high");
    assert("default"@.len() == 7 && "normal"@.len() == 6 && "high"@.len() == 4);
}

/// The values that a single member holds under a key.
proof fn lemma_values_of_one(member: MemberModel, key: Seq<char>)
    ensures
        values_of(seq![member], key) == if member.key == key {
            seq![member.value]
        } else {
            Seq::empty()
        },
{
    assert(seq![member] =~= Seq::<MemberModel>::empty().push(member));
    lemma_values_of_push(Seq::empty(), member, key);
    assert(Seq::<JsonModel>::empty().push(member.value) =~= seq![member.value]);
}

/// The values that the member for an optional text holds under a key.
proof fn lemma_values_of_text_member(k: Seq<char>, value: Option<Seq<char>>, key: Seq<char>)
    ensures
        values_of(text_member(k, value), key) == match value {
            Some(t) => if k == key {
                seq![JsonModel::Text(t)]
            } else {
                Seq::empty()
            },
            None => Seq::empty(),
        },
{
    match value {
        Some(t) => lemma_values_of_one(MemberModel { key: k, value: JsonModel::Text(t) }, key),
        None => {},
    }
}

/// The values that the member for an optional number holds under a key.
proof fn lemma_values_of_number_member(k: Seq<char>, value: Option<u32>, key: Seq<char>)
    ensures
        values_of(number_member(k, value), key) == match value {
            Some(n) => if k == key {
                seq![JsonModel::Integer(n as int)]
            } else {
                Seq::empty()
            },
            None => Seq::empty(),
        },
{
    match value {
        Some(n) => lemma_values_of_one(
            MemberModel { key: k, value: JsonModel::Integer(n as int) },
            key,
        ),
        None => {},
    }
}

/// The object sent for a message says about every key what the message
/// holds for it: the recipients under `to`, in their order; the value of a
/// field that is set, once, under that field's key; nothing for a field that
/// is not set, and nothing under any other key.
pub proof fn theorem_wire_fields(n: NotificationModel, key: Seq<char>)
    ensures
        field(n.wire_members(), key) == n.wire_field(key),
{
    let recipients = seq![MemberModel { key: "to"@, value: JsonModel::text_list(n.to) }];
    let data = text_member("data"@, n.data);
    let title = text_member("title"@, n.title);
    let body = text_member("body"@, n.body);
    let ttl = number_member("ttl"@, n.ttl);
    let expiration = number_member("expiration"@, n.expiration);
    let priority = text_member("priority"@, priority_text(n.priority));
    let subtitle = text_member("subtitle"@, n.subtitle);
    let sound = text_member("sound"@, n.sound);
    let badge = number_member("badge"@, n.badge);
    let channel = text_member("channelId"@, n.channel_id);
    let category = text_member("categoryId"@, n.category_id);
    lemma_values_of_concat(recipients, data, key);
    let with_data = recipients + data;
    lemma_values_of_concat(with_data, title, key);
    let with_title = with_data + title;
    lemma_values_of_concat(with_title, body, key);
    let with_body = with_title + body;
    lemma_values_of_concat(with_body, ttl, key);
    let with_ttl = with_body + ttl;
    lemma_values_of_concat(with_ttl, expiration, key);
    let with_expiration = with_ttl + expiration;
    lemma_values_of_concat(with_expiration, priority, key);
    let with_priority = with_expiration + priority;
    lemma_values_of_concat(with_priority, subtitle, key);
    let with_subtitle = with_priority + subtitle;
    lemma_values_of_concat(with_subtitle, sound, key);
    let with_sound = with_subtitle + sound;
    lemma_values_of_concat(with_sound, badge, key);
    let with_badge = with_sound + badge;
    lemma_values_of_concat(with_badge, channel, key);
    let with_channel = with_badge + channel;
    lemma_values_of_concat(with_channel, category, key);
    lemma_values_of_one(recipients[0], key);
    assert(recipients =~= seq![recipients[0]]);
    lemma_values_of_text_member("data"@, n.data, key);
    lemma_values_of_text_member("title"@, n.title, key);
    lemma_values_of_text_member("body"@, n.body, key);
    lemma_values_of_number_member("ttl"@, n.ttl, key);
    lemma_values_of_number_member("expiration"@, n.expiration, key);
    lemma_values_of_text_member("priority"@, priority_text(n.priority), key);
    lemma_values_of_text_member("subtitle"@, n.subtitle, key);
    lemma_values_of_text_member("sound"@, n.sound, key);
    lemma_values_of_number_member("badge"@, n.badge, key);
    lemma_values_of_text_member("channelId"@, n.channel_id, key);
    lemma_values_of_text_member("categoryId"@, n.category_id, key);
    lemma_keys_differ();
}

/// The recipients of a message stand under `to` in the object sent for it:
/// every token, once, in the order in which the message holds them.
pub proof fn theorem_recipients_kept(n: NotificationModel)
    ensures
        field(n.wire_members(), "to"@) matches Field::Single(JsonModel::Array(items)) && {
            &&& items.len() == n.to.len()
            &&& forall|i: int| 0 <= i < n.to.len() ==> #[trigger] items[i] == JsonModel::Text(n.to[i])
        },
{
    theorem_wire_fields(n, "to"@);
    lemma_wire_field_by_key(n);
}

/// What a message holds for each of its keys.
proof fn lemma_wire_field_by_key(n: NotificationModel)
    ensures
        n.wire_field("to"@) == Field::Single(JsonModel::text_list(n.to)),
        n.wire_field("data"@) == text_field(n.data),
        n.wire_field("title"@) == text_field(n.title),
        n.wire_field("body"@) == text_field(n.body),
        n.wire_field("ttl"@) == number_field(n.ttl),
        n.wire_field("expiration"@) == number_field(n.expiration),
        n.wire_field("priority"@) == text_field(priority_text(n.priority)),
        n.wire_field("subtitle"@) == text_field(n.subtitle),
        n.wire_field("sound"@) == text_field(n.sound),
        n.wire_field("badge"@) == number_field(n.badge),
        n.wire_field("channelId"@) == text_field(n.channel_id),
        n.wire_field("categoryId"@) == text_field(n.category_id),
{
    lemma_keys_differ();
}

/// No member of `members` holds `null`.
pub open spec fn no_null(members: Seq<MemberModel>) -> bool {
    forall|i: int| 0 <= i < members.len() ==> !((#[trigger] members[i]).value is Null)
}

/// Two runs of members without `null` make one without `null`.
proof fn lemma_no_null_concat(a: Seq<MemberModel>, b: Seq<MemberModel>)
    requires
        no_null(a),
        no_null(b),
    ensures
        no_null(a + b),
{
    assert forall|i: int| 0 <= i < (a + b).len() implies !((#[trigger] (a + b)[i]).value is Null) by {
        if i < a.len() {
            assert((a + b)[i] == a[i]);
        } else {
            assert((a + b)[i] == b[i - a.len()]);
        }
    }
}

/// A field that is not set is left out of the object sent for a message: no
/// member has its key.
pub proof fn theorem_unset_fields_left_out(n: NotificationModel)
    ensures
        n.data is None ==> field(n.wire_members(), "data"@) is Absent,
        n.title is None ==> field(n.wire_members(), "title"@) is Absent,
        n.body is None ==> field(n.wire_members(), "body"@) is Absent,
        n.ttl is None ==> field(n.wire_members(), "ttl"@) is Absent,
        n.expiration is None ==> field(n.wire_members(), "expiration"@) is Absent,
        n.priority is None ==> field(n.wire_members(), "priority"@) is Absent,
        n.subtitle is None ==> field(n.wire_members(), "subtitle"@) is Absent,
        n.sound is None ==> field(n.wire_members(), "sound"@) is Absent,
        n.badge is None ==> field(n.wire_members(), "badge"@) is Absent,
        n.channel_id is None ==> field(n.wire_members(), "channelId"@) is Absent,
        n.category_id is None ==> field(n.wire_members(), "categoryId"@) is Absent,
{
    lemma_wire_field_by_key(n);
    theorem_wire_fields(n, "data"@);
    theorem_wire_fields(n, "title"@);
    theorem_wire_fields(n, "body"@);
    theorem_wire_fields(n, "ttl"@);
    theorem_wire_fields(n, "expiration"@);
    theorem_wire_fields(n, "priority"@);
    theorem_wire_fields(n, "subtitle"@);
    theorem_wire_fields(n, "sound"@);
    theorem_wire_fields(n, "badge"@);
    theorem_wire_fields(n, "channelId"@);
    theorem_wire_fields(n, "categoryId"@);
}

/// No member of the object sent for a message holds `null`.
pub proof fn theorem_no_null_sent(n: NotificationModel)
    ensures
        no_null(n.wire_members()),
{
    let recipients = seq![MemberModel { key: "to"@, value: JsonModel::text_list(n.to) }];
    let data = text_member("data"@, n.data);
    let title = text_member("title"@, n.title);
    let body = text_member("body"@, n.body);
    let ttl = number_member("ttl"@, n.ttl);
    let expiration = number_member("expiration"@, n.expiration);
    let priority = text_member("priority"@, priority_text(n.priority));
    let subtitle = text_member("subtitle"@, n.subtitle);
    let sound = text_member("sound"@, n.sound);
    let badge = number_member("badge"@, n.badge);
    let channel = text_member("channelId"@, n.channel_id);
    let category = text_member("categoryId"@, n.category_id);
    lemma_no_null_concat(recipients, data);
    let with_data = recipients + data;
    lemma_no_null_concat(with_data, title);
    let with_title = with_data + title;
    lemma_no_null_concat(with_title, body);
    let with_body = with_title + body;
    lemma_no_null_concat(with_body, ttl);
    let with_ttl = with_body + ttl;
    lemma_no_null_concat(with_ttl, expiration);
    let with_expiration = with_ttl + expiration;
    lemma_no_null_concat(with_expiration, priority);
    let with_priority = with_expiration + priority;
    lemma_no_null_concat(with_priority, subtitle);
    let with_subtitle = with_priority + subtitle;
    lemma_no_null_concat(with_subtitle, sound);
    let with_sound = with_subtitle + sound;
    lemma_no_null_concat(with_sound, badge);
    let with_badge = with_sound + badge;
    lemma_no_null_concat(with_badge, channel);
    let with_channel = with_badge + channel;
    lemma_no_null_concat(with_channel, category);
}

/// Reading back the object sent for a message gives the message: every
/// field that was set comes back with its value, and no other.
pub proof fn theorem_wire_round_trip(n: NotificationModel)
    requires
        n.has_recipient(),
    ensures
        NotificationModel::of_wire(n.wire()) == Some(n),
{
    let members = n.wire_members();
    theorem_wire_fields(n, "to"@);
    theorem_wire_fields(n, "data"@);
    theorem_wire_fields(n, "title"@);
    theorem_wire_fields(n, "body"@);
    theorem_wire_fields(n, "ttl"@);
    theorem_wire_fields(n, "expiration"@);
    theorem_wire_fields(n, "priority"@);
    theorem_wire_fields(n, "subtitle"@);
    theorem_wire_fields(n, "sound"@);
    theorem_wire_fields(n, "badge"@);
    theorem_wire_fields(n, "channelId"@);
    theorem_wire_fields(n, "categoryId"@);
    lemma_wire_field_by_key(n);
    assert(JsonModel::text_list(n.to).as_text_list() == Some(n.to)) by {
        let items = JsonModel::text_list(n.to)->Array_0;
        assert(Seq::new(items.len(), |i: int| items[i]->Text_0) =~= n.to);
    }
    if n.priority is Some {
        theorem_priority_words(n.priority->0);
    }
}

/// A document departs from the shape of an answer somewhere exactly if it
/// describes none.
pub proof fn theorem_misfit_or_answer(json: JsonModel)
    ensures
        PushTicketResponseModel::misfit(json) is None <==> PushTicketResponseModel::of_wire(json)
            is Some,
{
    if let JsonModel::Object(members) = json {
        if let Field::Single(JsonModel::Array(tickets)) = field(members, "data"@) {
            lemma_first_unfit(tickets, is_ticket());
        }
        if let Field::Single(JsonModel::Array(errors)) = field(members, "errors"@) {
            lemma_first_unfit(errors, is_server_error());
        }
    }
}

} // verus!
