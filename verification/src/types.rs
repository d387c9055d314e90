//! What the server answers, as values, and how each is read out of a JSON document.
//!
//! Every type has a view, its mathematical value, and a `decoded` function
//! that says which view a document holds at a pointer, if it holds one. The
//! `decode` functions compute exactly that.

use crate::json::{
    json_document, parse_document, bool_at, is_object, is_vacant, item, item_pointer, json_nodes, len_at, member, member_pointer,
    number_at, object_at, optional_bool_at, optional_text_at, read_bool, read_len, read_number,
    read_optional_bool, read_optional_text, read_text, text_at, vacant_at, Document,
};
use crate::text::{chars_of, same_text};
use vstd::prelude::*;
use vstd::string::StrSliceExecFns;

verus! {

/// The number that the decimal digit `c` stands for.
pub open spec fn digit_value(c: char) -> Option<nat> {
    if '0' <= c && c <= '9' {
        Some((c as nat - '0' as nat) as nat)
    } else {
        None
    }
}

/// The number that `digits` writes in decimal notation, where it is made of
/// digits alone. The empty text writes no number.
pub open spec fn natural(digits: Seq<char>) -> Option<nat>
    decreases digits.len(),
{
    if digits.len() == 0 {
        None
    } else if digits.len() == 1 {
        digit_value(digits[0])
    } else {
        match (natural(digits.drop_last()), digit_value(digits.last())) {
            (Some(high), Some(low)) => Some(high * 10 + low),
            _ => None,
        }
    }
}

/// The number that `digits` writes, where it fits in 32 bits.
pub open spec fn natural_u32(digits: Seq<char>) -> Option<u32> {
    match natural(digits) {
        Some(n) if n <= u32::MAX => Some(n as u32),
        _ => None,
    }
}

/// A number written in several digits is at least as large as the number
/// that its leading digits write.
proof fn lemma_natural_grows(digits: Seq<char>, k: int)
    requires
        1 <= k <= digits.len(),
        natural(digits) is Some,
    ensures
        natural(digits.take(k)) is Some,
        natural(digits.take(k))->0 <= natural(digits)->0,
    decreases digits.len(),
{
    if k == digits.len() {
        assert(digits.take(k) =~= digits);
    } else {
        lemma_natural_grows(digits.drop_last(), k);
        assert(digits.drop_last().take(k) =~= digits.take(k));
    }
}

/// Where the leading digits do not write a number, neither does the whole.
proof fn lemma_natural_prefix_fails(digits: Seq<char>, k: int)
    requires
        1 <= k <= digits.len(),
        natural(digits.take(k)) is None,
    ensures
        natural(digits) is None,
    decreases digits.len(),
{
    if k == digits.len() {
        assert(digits.take(k) =~= digits);
    } else {
        assert(digits.drop_last().take(k) =~= digits.take(k));
        lemma_natural_prefix_fails(digits.drop_last(), k);
    }
}

/// Reads a number that fits in 32 bits from its decimal notation.
pub fn parse_u32(digits: &str) -> (value: Option<u32>)
    ensures
        value == natural_u32(digits@),
{
    let chars = chars_of(digits);
    let n = chars.len();
    if n == 0 {
        return None;
    }
    let mut total: u64 = 0;
    let mut i: usize = 0;
    while i < n
        invariant
            n == chars@.len(),
            chars@ == digits@,
            i <= n,
            total <= u32::MAX,
            i > 0 ==> natural(chars@.take(i as int)) == Some(total as nat),
            i == 0 ==> total == 0,
        decreases n - i,
    {
        let c = chars[i];
        let ghost prefix = chars@.take(i as int);
        let ghost next = chars@.take(i + 1);
        proof {
            assert(next.drop_last() =~= prefix);
        }
        if c < '0' || c > '9' {
            proof {
                lemma_natural_prefix_fails(chars@, i + 1);
            }
            return None;
        }
        let low: u64 = (c as u64) - ('0' as u64);
        let grown: u64 = total * 10 + low;
        if grown > u32::MAX as u64 {
            proof {
                if natural(chars@) is Some {
                    lemma_natural_grows(chars@, i + 1);
                }
            }
            return None;
        }
        total = grown;
        i = i + 1;
    }
    proof {
        assert(chars@.take(n as int) =~= chars@);
    }
    Some(total as u32)
}

/// The kind of account behind an identity.
#[derive(Debug, Clone, Copy, PartialEq, Eq, Structural)]
pub enum IdentityType {
    Personal,
}

impl IdentityType {
    /// The kind of account that `name` names.
    pub open spec fn named(name: Seq<char>) -> Option<IdentityType> {
        if name == "personal"@ {
            Some(IdentityType::Personal)
        } else {
            None
        }
    }

    /// The kind of account named at `pointer`.
    pub open spec fn decoded(doc: Document, pointer: Seq<char>) -> Option<IdentityType> {
        match text_at(doc, pointer) {
            Some(name) => Self::named(name),
            None => None,
        }
    }

    /// Reads the kind of account named at `pointer`.
    pub fn decode(doc: &serde_json::Value, pointer: &str) -> (kind: Option<IdentityType>)
        ensures
            kind == Self::decoded(json_nodes(*doc), pointer@),
    {
        match read_text(doc, pointer) {
            Some(name) => {
                if same_text(name.as_str(), "personal") {
                    Some(IdentityType::Personal)
                } else {
                    None
                }
            },
            None => None,
        }
    }
}

/// What the server answers to a login.
#[derive(Debug, Clone, PartialEq, Eq)]
pub struct LoginResponse {
    pub display_name: String,
    pub id: String,
    pub username: String,
    pub first_name: String,
    pub last_name: String,
    pub profile_picture_url: String,
    pub friend_count: u32,
    pub initials: String,
    pub friend_status: Option<bool>,
    pub is_blocked: bool,
    pub is_active: bool,
    pub identity_type: IdentityType,
    pub email: String,
    pub phone: String,
}

/// The mathematical value of a `LoginResponse`.
pub struct LoginResponseView {
    pub display_name: Seq<char>,
    pub id: Seq<char>,
    pub username: Seq<char>,
    pub first_name: Seq<char>,
    pub last_name: Seq<char>,
    pub profile_picture_url: Seq<char>,
    pub friend_count: u32,
    pub initials: Seq<char>,
    pub friend_status: Option<bool>,
    pub is_blocked: bool,
    pub is_active: bool,
    pub identity_type: IdentityType,
    pub email: Seq<char>,
    pub phone: Seq<char>,
}

impl View for LoginResponse {
    type V = LoginResponseView;

    open spec fn view(&self) -> LoginResponseView {
        LoginResponseView {
            display_name: self.display_name@,
            id: self.id@,
            username: self.username@,
            first_name: self.first_name@,
            last_name: self.last_name@,
            profile_picture_url: self.profile_picture_url@,
            friend_count: self.friend_count,
            initials: self.initials@,
            friend_status: self.friend_status,
            is_blocked: self.is_blocked,
            is_active: self.is_active,
            identity_type: self.identity_type,
            email: self.email@,
            phone: self.phone@,
        }
    }
}

impl DeepView for LoginResponse {
    type V = LoginResponseView;

    open spec fn deep_view(&self) -> LoginResponseView {
        self@
    }
}

impl LoginResponse {
    /// The login answer that stands at `base`: every member but
    /// `friendStatus` must be there, with a value of its type.
    pub open spec fn decoded(doc: Document, base: Seq<char>) -> Option<LoginResponseView> {
        let display_name = text_at(doc, member(base, "displayName"@));
        let id = text_at(doc, member(base, "id"@));
        let username = text_at(doc, member(base, "username"@));
        let first_name = text_at(doc, member(base, "firstName"@));
        let last_name = text_at(doc, member(base, "lastName"@));
        let profile_picture_url = text_at(doc, member(base, "profilePictureUrl"@));
        let friend_count = match number_at(doc, member(base, "friendCount"@)) {
            Some(digits) => natural_u32(digits),
            None => None,
        };
        let initials = text_at(doc, member(base, "initials"@));
        let friend_status = optional_bool_at(doc, member(base, "friendStatus"@));
        let is_blocked = bool_at(doc, member(base, "isBlocked"@));
        let is_active = bool_at(doc, member(base, "isActive"@));
        let identity_type = IdentityType::decoded(doc, member(base, "identityType"@));
        let email = text_at(doc, member(base, "email"@));
        let phone = text_at(doc, member(base, "phone"@));
        if display_name is Some && id is Some && username is Some && first_name is Some
            && last_name is Some && profile_picture_url is Some && friend_count is Some
            && initials is Some && friend_status is Some && is_blocked is Some
            && is_active is Some && identity_type is Some && email is Some && phone is Some {
            Some(
                LoginResponseView {
                    display_name: display_name->0,
                    id: id->0,
                    username: username->0,
                    first_name: first_name->0,
                    last_name: last_name->0,
                    profile_picture_url: profile_picture_url->0,
                    friend_count: friend_count->0,
                    initials: initials->0,
                    friend_status: friend_status->0,
                    is_blocked: is_blocked->0,
                    is_active: is_active->0,
                    identity_type: identity_type->0,
                    email: email->0,
                    phone: phone->0,
                },
            )
        } else {
            None
        }
    }

    /// The login answer that `body` is the JSON notation of.
    pub open spec fn in_body(body: Seq<char>) -> Option<LoginResponseView> {
        match json_document(body) {
            Some(doc) => Self::decoded(doc, ""@),
            None => None,
        }
    }

    /// Reads the login answer that `body` is the JSON notation of.
    pub fn from_body(body: &str) -> (read: Option<LoginResponse>)
        ensures
            read.deep_view() == Self::in_body(body@),
    {
        match parse_document(body) {
            Some(doc) => Self::decode(&doc, ""),
            None => None,
        }
    }

    /// Reads the login answer that stands at `base`.
    pub fn decode(doc: &serde_json::Value, base: &str) -> (answer: Option<LoginResponse>)
        ensures
            answer.deep_view() == Self::decoded(json_nodes(*doc), base@),
    {
        let display_name = read_text(doc, member_pointer(base, "displayName").as_str());
        let id = read_text(doc, member_pointer(base, "id").as_str());
        let username = read_text(doc, member_pointer(base, "username").as_str());
        let first_name = read_text(doc, member_pointer(base, "firstName").as_str());
        let last_name = read_text(doc, member_pointer(base, "lastName").as_str());
        let profile_picture_url = read_text(
            doc,
            member_pointer(base, "profilePictureUrl").as_str(),
        );
        let initials = read_text(doc, member_pointer(base, "initials").as_str());
        let email = read_text(doc, member_pointer(base, "email").as_str());
        let phone = read_text(doc, member_pointer(base, "phone").as_str());
        let friend_count = match read_number(doc, member_pointer(base, "friendCount").as_str()) {
            Some(digits) => parse_u32(digits.as_str()),
            None => None,
        };
        let friend_status = read_optional_bool(doc, member_pointer(base, "friendStatus").as_str());
        let is_blocked = read_bool(doc, member_pointer(base, "isBlocked").as_str());
        let is_active = read_bool(doc, member_pointer(base, "isActive").as_str());
        let identity_type = IdentityType::decode(
            doc,
            member_pointer(base, "identityType").as_str(),
        );
        match (display_name, id, username, first_name, last_name, profile_picture_url, initials) {
            (
                Some(display_name),
                Some(id),
                Some(username),
                Some(first_name),
                Some(last_name),
                Some(profile_picture_url),
                Some(initials),
            ) => match (email, phone, friend_count, friend_status, is_blocked, is_active) {
                (
                    Some(email),
                    Some(phone),
                    Some(friend_count),
                    Some(friend_status),
                    Some(is_blocked),
                    Some(is_active),
                ) => match identity_type {
                    Some(identity_type) => Some(
                        LoginResponse {
                            display_name,
                            id,
                            username,
                            first_name,
                            last_name,
                            profile_picture_url,
                            friend_count,
                            initials,
                            friend_status,
                            is_blocked,
                            is_active,
                            identity_type,
                            email,
                            phone,
                        },
                    ),
                    None => None,
                },
                _ => None,
            },
            _ => None,
        }
    }
}

/// The balance of an account, as the decimal notation of an amount of money.
#[derive(Debug, Clone, PartialEq, Eq)]
pub struct UserBalance {
    pub value: String,
}

/// The balances of an account.
#[derive(Debug, Clone, PartialEq, Eq)]
pub struct Balance {
    pub user_balance: UserBalance,
}

/// The picture of an account.
#[derive(Debug, Clone, PartialEq, Eq)]
pub struct Avatar {
    pub url: String,
}

/// The snapshot of the account that the session acts for.
#[derive(Debug, Clone, PartialEq, Eq)]
pub struct Identity {
    pub is_denylisted: bool,
    pub is_suspended: bool,
    pub account_type: IdentityType,
    pub avatar: Avatar,
    pub display_name: String,
    pub handle: String,
    pub id: String,
    pub balance: Balance,
}

/// The mathematical value of an `Identity`.
pub struct IdentityView {
    pub is_denylisted: bool,
    pub is_suspended: bool,
    pub account_type: IdentityType,
    pub avatar_url: Seq<char>,
    pub display_name: Seq<char>,
    pub handle: Seq<char>,
    pub id: Seq<char>,
    pub balance: Seq<char>,
}

impl View for Identity {
    type V = IdentityView;

    open spec fn view(&self) -> IdentityView {
        IdentityView {
            is_denylisted: self.is_denylisted,
            is_suspended: self.is_suspended,
            account_type: self.account_type,
            avatar_url: self.avatar.url@,
            display_name: self.display_name@,
            handle: self.handle@,
            id: self.id@,
            balance: self.balance.user_balance.value@,
        }
    }
}

impl DeepView for Identity {
    type V = IdentityView;

    open spec fn deep_view(&self) -> IdentityView {
        self@
    }
}

impl Identity {
    /// The identity that stands at `base`: every member must be there, with a
    /// value of its type. The balance is the number at
    /// `balance/userBalance/value`, in the notation in which it is printed.
    pub open spec fn decoded(doc: Document, base: Seq<char>) -> Option<IdentityView> {
        let is_denylisted = bool_at(doc, member(base, "isDenylisted"@));
        let is_suspended = bool_at(doc, member(base, "isSuspended"@));
        let account_type = IdentityType::decoded(doc, member(base, "type"@));
        let avatar_url = text_at(doc, member(member(base, "avatar"@), "url"@));
        let display_name = text_at(doc, member(base, "displayName"@));
        let handle = text_at(doc, member(base, "handle"@));
        let id = text_at(doc, member(base, "id"@));
        let balance = number_at(
            doc,
            member(member(member(base, "balance"@), "userBalance"@), "value"@),
        );
        if is_denylisted is Some && is_suspended is Some && account_type is Some
            && avatar_url is Some && display_name is Some && handle is Some && id is Some
            && balance is Some {
            Some(
                IdentityView {
                    is_denylisted: is_denylisted->0,
                    is_suspended: is_suspended->0,
                    account_type: account_type->0,
                    avatar_url: avatar_url->0,
                    display_name: display_name->0,
                    handle: handle->0,
                    id: id->0,
                    balance: balance->0,
                },
            )
        } else {
            None
        }
    }

    /// Reads the identity that stands at `base`.
    pub fn decode(doc: &serde_json::Value, base: &str) -> (identity: Option<Identity>)
        ensures
            identity.deep_view() == Self::decoded(json_nodes(*doc), base@),
    {
        let is_denylisted = read_bool(doc, member_pointer(base, "isDenylisted").as_str());
        let is_suspended = read_bool(doc, member_pointer(base, "isSuspended").as_str());
        let account_type = IdentityType::decode(doc, member_pointer(base, "type").as_str());
        let avatar = member_pointer(base, "avatar");
        let avatar_url = read_text(doc, member_pointer(avatar.as_str(), "url").as_str());
        let display_name = read_text(doc, member_pointer(base, "displayName").as_str());
        let handle = read_text(doc, member_pointer(base, "handle").as_str());
        let id = read_text(doc, member_pointer(base, "id").as_str());
        let balance = member_pointer(base, "balance");
        let user_balance = member_pointer(balance.as_str(), "userBalance");
        let value = read_number(doc, member_pointer(user_balance.as_str(), "value").as_str());
        match (is_denylisted, is_suspended, account_type, avatar_url) {
            (Some(is_denylisted), Some(is_suspended), Some(account_type), Some(url)) => match (
                display_name,
                handle,
                id,
                value,
            ) {
                (Some(display_name), Some(handle), Some(id), Some(value)) => Some(
                    Identity {
                        is_denylisted,
                        is_suspended,
                        account_type,
                        avatar: Avatar { url },
                        display_name,
                        handle,
                        id,
                        balance: Balance { user_balance: UserBalance { value } },
                    },
                ),
                _ => None,
            },
            _ => None,
        }
    }

    /// A second copy of the identity.
    pub fn duplicate(&self) -> (copy: Identity)
        ensures
            copy == *self,
    {
        Identity {
            is_denylisted: self.is_denylisted,
            is_suspended: self.is_suspended,
            account_type: self.account_type,
            avatar: Avatar { url: self.avatar.url.clone() },
            display_name: self.display_name.clone(),
            handle: self.handle.clone(),
            id: self.id.clone(),
            balance: Balance {
                user_balance: UserBalance { value: self.balance.user_balance.value.clone() },
            },
        }
    }
}

/// The broad kind of an entry of the feed.
#[derive(Debug, Clone, Copy, PartialEq, Eq, Structural)]
pub enum StoryType {
    Payment,
    Transfer,
}

impl StoryType {
    /// The kind of entry that `name` names.
    pub open spec fn named(name: Seq<char>) -> Option<StoryType> {
        if name == "payment"@ {
            Some(StoryType::Payment)
        } else if name == "transfer"@ {
            Some(StoryType::Transfer)
        } else {
            None
        }
    }

    /// Reads a kind of entry from its name.
    pub fn from_name(name: &str) -> (kind: Option<StoryType>)
        ensures
            kind == Self::named(name@),
    {
        if same_text(name, "payment") {
            Some(StoryType::Payment)
        } else if same_text(name, "transfer") {
            Some(StoryType::Transfer)
        } else {
            None
        }
    }
}

/// The note that the payer wrote on a story.
#[derive(Debug, Clone, PartialEq, Eq)]
pub struct StoryNote {
    pub content: Option<String>,
}

/// One side of a payment between two people.
#[derive(Debug, Clone, PartialEq, Eq)]
pub struct SenderReciever {
    pub id: String,
    pub display_name: String,
    pub username: String,
}

/// The mathematical value of a `SenderReciever`.
pub struct SenderRecieverView {
    pub id: Seq<char>,
    pub display_name: Seq<char>,
    pub username: Seq<char>,
}

impl View for SenderReciever {
    type V = SenderRecieverView;

    open spec fn view(&self) -> SenderRecieverView {
        SenderRecieverView {
            id: self.id@,
            display_name: self.display_name@,
            username: self.username@,
        }
    }
}

impl DeepView for SenderReciever {
    type V = SenderRecieverView;

    open spec fn deep_view(&self) -> SenderRecieverView {
        self@
    }
}

impl SenderReciever {
    /// The person that stands at `base`, with the members `id`, `displayName`
    /// and `username`, all texts.
    pub open spec fn decoded(doc: Document, base: Seq<char>) -> Option<SenderRecieverView> {
        match (
            text_at(doc, member(base, "id"@)),
            text_at(doc, member(base, "displayName"@)),
            text_at(doc, member(base, "username"@)),
        ) {
            (Some(id), Some(display_name), Some(username)) => Some(
                SenderRecieverView { id, display_name, username },
            ),
            _ => None,
        }
    }

    /// The person that may stand at `base`: nothing, or `null`, is nobody;
    /// anything else must be a person.
    pub open spec fn decoded_optional(doc: Document, base: Seq<char>) -> Option<
        Option<SenderRecieverView>,
    > {
        if vacant_at(doc, base) {
            Some(None)
        } else {
            match Self::decoded(doc, base) {
                Some(person) => Some(Some(person)),
                None => None,
            }
        }
    }

    /// Reads the person that stands at `base`.
    pub fn decode(doc: &serde_json::Value, base: &str) -> (person: Option<SenderReciever>)
        ensures
            person.deep_view() == Self::decoded(json_nodes(*doc), base@),
    {
        let id = read_text(doc, member_pointer(base, "id").as_str());
        let display_name = read_text(doc, member_pointer(base, "displayName").as_str());
        let username = read_text(doc, member_pointer(base, "username").as_str());
        match (id, display_name, username) {
            (Some(id), Some(display_name), Some(username)) => Some(
                SenderReciever { id, display_name, username },
            ),
            _ => None,
        }
    }

    /// Reads the person that may stand at `base`.
    pub fn decode_optional(doc: &serde_json::Value, base: &str) -> (person: Option<
        Option<SenderReciever>,
    >)
        ensures
            person.deep_view() == Self::decoded_optional(json_nodes(*doc), base@),
    {
        if is_vacant(doc, base) {
            Some(None)
        } else {
            match Self::decode(doc, base) {
                Some(person) => Some(Some(person)),
                None => None,
            }
        }
    }
}

/// What a story is about. Only payments between two people name a sender and
/// a receiver.
#[derive(Debug, Clone, Copy, PartialEq, Eq, Structural)]
pub enum StorySubType {
    P2p,
    StandardTransfer,
    CreditReward,
    CreditRepayment,
}

impl StorySubType {
    /// The kind of story that `name` names.
    pub open spec fn named(name: Seq<char>) -> Option<StorySubType> {
        if name == "p2p"@ {
            Some(StorySubType::P2p)
        } else if name == "standardTransfer"@ {
            Some(StorySubType::StandardTransfer)
        } else if name == "creditReward"@ {
            Some(StorySubType::CreditReward)
        } else if name == "creditRepayment"@ {
            Some(StorySubType::CreditRepayment)
        } else {
            None
        }
    }

    /// The kind of story named at `pointer`.
    pub open spec fn decoded(doc: Document, pointer: Seq<char>) -> Option<StorySubType> {
        match text_at(doc, pointer) {
            Some(name) => Self::named(name),
            None => None,
        }
    }

    /// Reads the kind of story named at `pointer`.
    pub fn decode(doc: &serde_json::Value, pointer: &str) -> (kind: Option<StorySubType>)
        ensures
            kind == Self::decoded(json_nodes(*doc), pointer@),
    {
        match read_text(doc, pointer) {
            Some(name) => {
                if same_text(name.as_str(), "p2p") {
                    Some(StorySubType::P2p)
                } else if same_text(name.as_str(), "standardTransfer") {
                    Some(StorySubType::StandardTransfer)
                } else if same_text(name.as_str(), "creditReward") {
                    Some(StorySubType::CreditReward)
                } else if same_text(name.as_str(), "creditRepayment") {
                    Some(StorySubType::CreditRepayment)
                } else {
                    None
                }
            },
            None => None,
        }
    }
}

/// The typed part of the title of a story.
#[derive(Debug, Clone, Copy, PartialEq, Eq, Structural)]
pub struct StoryPayload {
    pub sub_type: StorySubType,
}

/// The title of a story: what it is about, and between whom.
#[derive(Debug, Clone, PartialEq, Eq)]
pub struct StoryTitle {
    pub payload: StoryPayload,
    pub content: Option<String>,
    pub receiver: Option<SenderReciever>,
    pub sender: Option<SenderReciever>,
}

/// The mathematical value of a `StoryTitle`.
pub struct StoryTitleView {
    pub sub_type: StorySubType,
    pub content: Option<Seq<char>>,
    pub receiver: Option<SenderRecieverView>,
    pub sender: Option<SenderRecieverView>,
}

impl View for StoryTitle {
    type V = StoryTitleView;

    open spec fn view(&self) -> StoryTitleView {
        StoryTitleView {
            sub_type: self.payload.sub_type,
            content: self.content.deep_view(),
            receiver: self.receiver.deep_view(),
            sender: self.sender.deep_view(),
        }
    }
}

impl DeepView for StoryTitle {
    type V = StoryTitleView;

    open spec fn deep_view(&self) -> StoryTitleView {
        self@
    }
}

impl StoryTitle {
    /// The title that stands at `base`: `payload/subType` must name a kind of
    /// story; `content`, `receiver` and `sender` may be missing.
    pub open spec fn decoded(doc: Document, base: Seq<char>) -> Option<StoryTitleView> {
        match (
            StorySubType::decoded(doc, member(member(base, "payload"@), "subType"@)),
            optional_text_at(doc, member(base, "content"@)),
            SenderReciever::decoded_optional(doc, member(base, "receiver"@)),
            SenderReciever::decoded_optional(doc, member(base, "sender"@)),
        ) {
            (Some(sub_type), Some(content), Some(receiver), Some(sender)) => Some(
                StoryTitleView { sub_type, content, receiver, sender },
            ),
            _ => None,
        }
    }

    /// Reads the title that stands at `base`.
    pub fn decode(doc: &serde_json::Value, base: &str) -> (title: Option<StoryTitle>)
        ensures
            title.deep_view() == Self::decoded(json_nodes(*doc), base@),
    {
        let payload = member_pointer(base, "payload");
        let sub_type = StorySubType::decode(
            doc,
            member_pointer(payload.as_str(), "subType").as_str(),
        );
        let content = read_optional_text(doc, member_pointer(base, "content").as_str());
        let receiver = SenderReciever::decode_optional(
            doc,
            member_pointer(base, "receiver").as_str(),
        );
        let sender = SenderReciever::decode_optional(doc, member_pointer(base, "sender").as_str());
        match (sub_type, content, receiver, sender) {
            (Some(sub_type), Some(content), Some(receiver), Some(sender)) => Some(
                StoryTitle { payload: StoryPayload { sub_type }, content, receiver, sender },
            ),
            _ => None,
        }
    }
}

/// One entry of the feed.
#[derive(Debug, Clone, PartialEq, Eq)]
pub struct Story {
    /// The amount, a decimal number with a leading `+` or `-`.
    pub amount: String,
    pub avatar: String,
    pub initials: String,
    pub date: String,
    pub id: String,
    pub note: StoryNote,
    pub title: StoryTitle,
}

/// The mathematical value of a `Story`.
pub struct StoryView {
    pub amount: Seq<char>,
    pub avatar: Seq<char>,
    pub initials: Seq<char>,
    pub date: Seq<char>,
    pub id: Seq<char>,
    pub note: Option<Seq<char>>,
    pub title: StoryTitleView,
}

impl View for Story {
    type V = StoryView;

    open spec fn view(&self) -> StoryView {
        StoryView {
            amount: self.amount@,
            avatar: self.avatar@,
            initials: self.initials@,
            date: self.date@,
            id: self.id@,
            note: self.note.content.deep_view(),
            title: self.title@,
        }
    }
}

impl DeepView for Story {
    type V = StoryView;

    open spec fn deep_view(&self) -> StoryView {
        self@
    }
}

impl Story {
    /// The story that stands at `base`: `amount`, `avatar`, `initials`,
    /// `date` and `id` must be texts, `note` an object whose `content` may be
    /// missing, and `title` a title.
    pub open spec fn decoded(doc: Document, base: Seq<char>) -> Option<StoryView> {
        let amount = text_at(doc, member(base, "amount"@));
        let avatar = text_at(doc, member(base, "avatar"@));
        let initials = text_at(doc, member(base, "initials"@));
        let date = text_at(doc, member(base, "date"@));
        let id = text_at(doc, member(base, "id"@));
        let note = optional_text_at(doc, member(member(base, "note"@), "content"@));
        let title = StoryTitle::decoded(doc, member(base, "title"@));
        if amount is Some && avatar is Some && initials is Some && date is Some && id is Some
            && object_at(doc, member(base, "note"@)) && note is Some && title is Some {
            Some(
                StoryView {
                    amount: amount->0,
                    avatar: avatar->0,
                    initials: initials->0,
                    date: date->0,
                    id: id->0,
                    note: note->0,
                    title: title->0,
                },
            )
        } else {
            None
        }
    }

    /// Reads the story that stands at `base`.
    pub fn decode(doc: &serde_json::Value, base: &str) -> (story: Option<Story>)
        ensures
            story.deep_view() == Self::decoded(json_nodes(*doc), base@),
    {
        let amount = read_text(doc, member_pointer(base, "amount").as_str());
        let avatar = read_text(doc, member_pointer(base, "avatar").as_str());
        let initials = read_text(doc, member_pointer(base, "initials").as_str());
        let date = read_text(doc, member_pointer(base, "date").as_str());
        let id = read_text(doc, member_pointer(base, "id").as_str());
        let note = member_pointer(base, "note");
        let has_note = is_object(doc, note.as_str());
        let content = read_optional_text(doc, member_pointer(note.as_str(), "content").as_str());
        let title = StoryTitle::decode(doc, member_pointer(base, "title").as_str());
        if !has_note {
            return None;
        }
        match (amount, avatar, initials, date) {
            (Some(amount), Some(avatar), Some(initials), Some(date)) => match (id, content, title) {
                (Some(id), Some(content), Some(title)) => Some(
                    Story { amount, avatar, initials, date, id, note: StoryNote { content }, title },
                ),
                _ => None,
            },
            _ => None,
        }
    }
}

/// One page of the feed: its stories, and the cursor of the page after it.
#[derive(Debug, Clone, PartialEq, Eq)]
pub struct StoriesResponse {
    pub next_id: String,
    pub stories: Vec<Story>,
}

/// The mathematical value of a `StoriesResponse`.
pub struct StoriesResponseView {
    pub next_id: Seq<char>,
    pub stories: Seq<StoryView>,
}

impl View for StoriesResponse {
    type V = StoriesResponseView;

    open spec fn view(&self) -> StoriesResponseView {
        StoriesResponseView { next_id: self.next_id@, stories: self.stories.deep_view() }
    }
}

impl DeepView for StoriesResponse {
    type V = StoriesResponseView;

    open spec fn deep_view(&self) -> StoriesResponseView {
        self@
    }
}

impl StoriesResponse {
    /// The story that stands at place `index` of the array at `list`.
    pub open spec fn story_at(doc: Document, list: Seq<char>, index: int) -> Option<StoryView> {
        Story::decoded(doc, item(list, index as nat))
    }

    /// The page that stands at `base`: `nextId` must be a text and `stories`
    /// an array of stories. One item that is no story spoils the page.
    pub open spec fn decoded(doc: Document, base: Seq<char>) -> Option<StoriesResponseView> {
        let list = member(base, "stories"@);
        match (text_at(doc, member(base, "nextId"@)), len_at(doc, list)) {
            (Some(next_id), Some(count)) => {
                if forall|i: int| 0 <= i < count ==> (#[trigger] Self::story_at(doc, list, i)) is Some {
                    Some(
                        StoriesResponseView {
                            next_id,
                            stories: Seq::new(count, |i: int| Self::story_at(doc, list, i)->0),
                        },
                    )
                } else {
                    None
                }
            },
            _ => None,
        }
    }

    /// The page that `body` is the JSON notation of.
    pub open spec fn in_body(body: Seq<char>) -> Option<StoriesResponseView> {
        match json_document(body) {
            Some(doc) => Self::decoded(doc, ""@),
            None => None,
        }
    }

    /// Reads the page that `body` is the JSON notation of.
    pub fn from_body(body: &str) -> (read: Option<StoriesResponse>)
        ensures
            read.deep_view() == Self::in_body(body@),
    {
        match parse_document(body) {
            Some(doc) => Self::decode(&doc, ""),
            None => None,
        }
    }

    /// Reads the page that stands at `base`.
    pub fn decode(doc: &serde_json::Value, base: &str) -> (page: Option<StoriesResponse>)
        ensures
            page.deep_view() == Self::decoded(json_nodes(*doc), base@),
    {
        let list = member_pointer(base, "stories");
        let next_id = read_text(doc, member_pointer(base, "nextId").as_str());
        let count = read_len(doc, list.as_str());
        match (next_id, count) {
            (Some(next_id), Some(count)) => {
                let mut stories: Vec<Story> = Vec::new();
                let mut i: usize = 0;
                while i < count
                    invariant
                        i <= count,
                        stories@.len() == i,
                        list@ == member(base@, "stories"@),
                        len_at(json_nodes(*doc), list@) == Some(count as nat),
                        text_at(json_nodes(*doc), member(base@, "nextId"@)) == Some(next_id@),
                        forall|k: int|
                            0 <= k < i ==> (#[trigger] Self::story_at(json_nodes(*doc), list@, k))
                                == Some(stories@[k]@),
                    decreases count - i,
                {
                    match Story::decode(doc, item_pointer(list.as_str(), i).as_str()) {
                        Some(story) => {
                            stories.push(story);
                        },
                        None => {
                            assert(Self::story_at(json_nodes(*doc), list@, i as int) is None);
                            return None;
                        },
                    }
                    i = i + 1;
                }
                let page = StoriesResponse { next_id, stories };
                proof {
                    let expected = Seq::new(
                        count as nat,
                        |i: int| Self::story_at(json_nodes(*doc), list@, i)->0,
                    );
                    assert(page.stories.deep_view() =~= expected);
                }
                Some(page)
            },
            _ => None,
        }
    }
}

/// How far a payment or a request has come.
#[derive(Debug, Clone, Copy, PartialEq, Eq, Structural)]
pub enum PayRequestResponseStatus {
    Pending,
    Settled,
}

impl PayRequestResponseStatus {
    /// The status that `name` names.
    pub open spec fn named(name: Seq<char>) -> Option<PayRequestResponseStatus> {
        if name == "pending"@ {
            Some(PayRequestResponseStatus::Pending)
        } else if name == "settled"@ {
            Some(PayRequestResponseStatus::Settled)
        } else {
            None
        }
    }

    /// The status named at `pointer`.
    pub open spec fn decoded(doc: Document, pointer: Seq<char>) -> Option<
        PayRequestResponseStatus,
    > {
        match text_at(doc, pointer) {
            Some(name) => Self::named(name),
            None => None,
        }
    }

    /// Reads the status named at `pointer`.
    pub fn decode(doc: &serde_json::Value, pointer: &str) -> (status: Option<
        PayRequestResponseStatus,
    >)
        ensures
            status == Self::decoded(json_nodes(*doc), pointer@),
    {
        match read_text(doc, pointer) {
            Some(name) => {
                if same_text(name.as_str(), "pending") {
                    Some(PayRequestResponseStatus::Pending)
                } else if same_text(name.as_str(), "settled") {
                    Some(PayRequestResponseStatus::Settled)
                } else {
                    None
                }
            },
            None => None,
        }
    }
}

/// What the server answers to a payment or a request for one.
#[derive(Debug, Clone, PartialEq, Eq)]
pub struct PayRequestResponse {
    /// The balance after the payment, as the server writes it.
    pub balance: String,
    pub status: PayRequestResponseStatus,
}

/// The mathematical value of a `PayRequestResponse`.
pub struct PayRequestResponseView {
    pub balance: Seq<char>,
    pub status: PayRequestResponseStatus,
}

impl View for PayRequestResponse {
    type V = PayRequestResponseView;

    open spec fn view(&self) -> PayRequestResponseView {
        PayRequestResponseView { balance: self.balance@, status: self.status }
    }
}

impl DeepView for PayRequestResponse {
    type V = PayRequestResponseView;

    open spec fn deep_view(&self) -> PayRequestResponseView {
        self@
    }
}

impl PayRequestResponse {
    /// The answer that stands at `base`, with the text `balance` and the
    /// status `status`.
    pub open spec fn decoded(doc: Document, base: Seq<char>) -> Option<PayRequestResponseView> {
        match (
            text_at(doc, member(base, "balance"@)),
            PayRequestResponseStatus::decoded(doc, member(base, "status"@)),
        ) {
            (Some(balance), Some(status)) => Some(PayRequestResponseView { balance, status }),
            _ => None,
        }
    }

    /// The answer that `body` is the JSON notation of.
    pub open spec fn in_body(body: Seq<char>) -> Option<PayRequestResponseView> {
        match json_document(body) {
            Some(doc) => Self::decoded(doc, ""@),
            None => None,
        }
    }

    /// Reads the answer that `body` is the JSON notation of.
    pub fn from_body(body: &str) -> (read: Option<PayRequestResponse>)
        ensures
            read.deep_view() == Self::in_body(body@),
    {
        match parse_document(body) {
            Some(doc) => Self::decode(&doc, ""),
            None => None,
        }
    }

    /// Reads the answer that stands at `base`.
    pub fn decode(doc: &serde_json::Value, base: &str) -> (answer: Option<PayRequestResponse>)
        ensures
            answer.deep_view() == Self::decoded(json_nodes(*doc), base@),
    {
        let balance = read_text(doc, member_pointer(base, "balance").as_str());
        let status = PayRequestResponseStatus::decode(
            doc,
            member_pointer(base, "status").as_str(),
        );
        match (balance, status) {
            (Some(balance), Some(status)) => Some(PayRequestResponse { balance, status }),
            _ => None,
        }
    }
}

/// One of the user's payment methods.
#[derive(Debug, Clone, PartialEq, Eq)]
pub struct FundingInstrument {
    pub id: String,
    pub name: String,
    pub instrument_type: String,
}

/// The mathematical value of a `FundingInstrument`.
pub struct FundingInstrumentView {
    pub id: Seq<char>,
    pub name: Seq<char>,
    pub instrument_type: Seq<char>,
}

impl View for FundingInstrument {
    type V = FundingInstrumentView;

    open spec fn view(&self) -> FundingInstrumentView {
        FundingInstrumentView {
            id: self.id@,
            name: self.name@,
            instrument_type: self.instrument_type@,
        }
    }
}

impl DeepView for FundingInstrument {
    type V = FundingInstrumentView;

    open spec fn deep_view(&self) -> FundingInstrumentView {
        self@
    }
}

impl FundingInstrument {
    /// The payment method that stands at `base`, with the members `id`,
    /// `name` and `instrumentType`, all texts.
    pub open spec fn decoded(doc: Document, base: Seq<char>) -> Option<FundingInstrumentView> {
        match (
            text_at(doc, member(base, "id"@)),
            text_at(doc, member(base, "name"@)),
            text_at(doc, member(base, "instrumentType"@)),
        ) {
            (Some(id), Some(name), Some(instrument_type)) => Some(
                FundingInstrumentView { id, name, instrument_type },
            ),
            _ => None,
        }
    }

    /// Reads the payment method that stands at `base`.
    pub fn decode(doc: &serde_json::Value, base: &str) -> (instrument: Option<FundingInstrument>)
        ensures
            instrument.deep_view() == Self::decoded(json_nodes(*doc), base@),
    {
        let id = read_text(doc, member_pointer(base, "id").as_str());
        let name = read_text(doc, member_pointer(base, "name").as_str());
        let instrument_type = read_text(doc, member_pointer(base, "instrumentType").as_str());
        match (id, name, instrument_type) {
            (Some(id), Some(name), Some(instrument_type)) => Some(
                FundingInstrument { id, name, instrument_type },
            ),
            _ => None,
        }
    }
}

/// The server's word on whether a payment may be made, with the token that
/// proves it.
#[derive(Debug, Clone, PartialEq, Eq)]
pub struct Eligibility {
    pub eligible: bool,
    pub eligibility_token: Option<String>,
}

/// The mathematical value of an `Eligibility`.
pub struct EligibilityView {
    pub eligible: bool,
    pub eligibility_token: Option<Seq<char>>,
}

impl View for Eligibility {
    type V = EligibilityView;

    open spec fn view(&self) -> EligibilityView {
        EligibilityView {
            eligible: self.eligible,
            eligibility_token: self.eligibility_token.deep_view(),
        }
    }
}

impl DeepView for Eligibility {
    type V = EligibilityView;

    open spec fn deep_view(&self) -> EligibilityView {
        self@
    }
}

impl Eligibility {
    /// The answer that stands at `base`: the boolean `eligible` must be
    /// there, the text `eligibility_token` may be missing.
    pub open spec fn decoded(doc: Document, base: Seq<char>) -> Option<EligibilityView> {
        match (
            bool_at(doc, member(base, "eligible"@)),
            optional_text_at(doc, member(base, "eligibility_token"@)),
        ) {
            (Some(eligible), Some(eligibility_token)) => Some(
                EligibilityView { eligible, eligibility_token },
            ),
            _ => None,
        }
    }

    /// The answer that `body` is the JSON notation of.
    pub open spec fn in_body(body: Seq<char>) -> Option<EligibilityView> {
        match json_document(body) {
            Some(doc) => Self::decoded(doc, ""@),
            None => None,
        }
    }

    /// Reads the answer that `body` is the JSON notation of.
    pub fn from_body(body: &str) -> (read: Option<Eligibility>)
        ensures
            read.deep_view() == Self::in_body(body@),
    {
        match parse_document(body) {
            Some(doc) => Self::decode(&doc, ""),
            None => None,
        }
    }

    /// Reads the answer that stands at `base`.
    pub fn decode(doc: &serde_json::Value, base: &str) -> (answer: Option<Eligibility>)
        ensures
            answer.deep_view() == Self::decoded(json_nodes(*doc), base@),
    {
        let eligible = read_bool(doc, member_pointer(base, "eligible").as_str());
        let eligibility_token = read_optional_text(
            doc,
            member_pointer(base, "eligibility_token").as_str(),
        );
        match (eligible, eligibility_token) {
            (Some(eligible), Some(eligibility_token)) => Some(
                Eligibility { eligible, eligibility_token },
            ),
            _ => None,
        }
    }

    /// Takes the token out of the answer, if it grants the payment.
    pub fn grant(self) -> (token: Option<String>)
        ensures
            token.deep_view() == self@.granted(),
    {
        if self.eligible {
            match self.eligibility_token {
                Some(token) => {
                    if token.as_str().unicode_len() > 0 {
                        Some(token)
                    } else {
                        None
                    }
                },
                None => None,
            }
        } else {
            None
        }
    }
}

impl EligibilityView {
    /// The token of the grant that the answer is: there is one exactly where
    /// the server found the payment eligible and sent a token that is not
    /// empty.
    pub open spec fn granted(self) -> Option<Seq<char>> {
        match self.eligibility_token {
            Some(token) if self.eligible && token.len() > 0 => Some(token),
            _ => None,
        }
    }
}

} // verus!
