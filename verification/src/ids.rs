//! Opaque identifiers of the native protocol surface.
//!
//! An identifier is an opaque text on the wire. A newly created resource gets a
//! prefixed form (`ses_`, `turn_`, `item_`, ...); a bare UUID from an older
//! record stays valid and keeps its text unchanged.

use vstd::prelude::*;

use crate::text::{concat, same_text};

verus! {

/// The text that `uuid` gives for the UUID with the given number: its hyphenated
/// form.
pub uninterp spec fn uuid_text(value: u128) -> Seq<char>;

/// The number of the UUID that `uuid` reads from a text, if it reads one.
pub uninterp spec fn uuid_value(text: Seq<char>) -> Option<u128>;

/// Whether a character is a decimal digit or one of `a` to `f`.
pub open spec fn is_lower_hex(c: char) -> bool {
    ('0' <= c && c <= '9') || ('a' <= c && c <= 'f')
}

/// Whether a text is a UUID in simple form: 32 lowercase hexadecimal digits.
pub open spec fn is_simple_uuid(text: Seq<char>) -> bool {
    &&& text.len() == 32
    &&& forall|i: int| 0 <= i < 32 ==> is_lower_hex(#[trigger] text[i])
}

/// Whether a text is what a new identifier with a prefix is: the prefix and a UUID in
/// simple form.
pub open spec fn is_new_id(prefix: Seq<char>, text: Seq<char>) -> bool {
    &&& text.len() == prefix.len() + 32
    &&& text.take(prefix.len() as int) == prefix
    &&& is_simple_uuid(text.skip(prefix.len() as int))
}

/// A new UUID of version 7 in simple form, from `uuid::Uuid::now_v7` and
/// `uuid::Uuid::simple`. Which one it is depends on the clock and on chance;
/// whichever it is, its text is 32 lowercase hexadecimal digits.
#[verifier::external_body]
pub(crate) fn fresh_uuid() -> (result: String)
    ensures
        is_simple_uuid(result@),
{
    uuid::Uuid::now_v7().simple().to_string()
}

/// The number of a new UUID of version 7, from `uuid::Uuid::now_v7`. Which one it
/// is depends on the clock and on chance.
#[verifier::external_body]
pub(crate) fn fresh_uuid_value() -> u128 {
    uuid::Uuid::now_v7().as_u128()
}

/// The hyphenated text of a UUID, from the `Display` of `uuid::Uuid`. Reading
/// the text gives the same UUID back.
#[verifier::external_body]
pub(crate) fn format_uuid(value: u128) -> (result: String)
    ensures
        result@ == uuid_text(value),
        uuid_value(result@) == Some(value),
{
    uuid::Uuid::from_u128(value).to_string()
}

/// Reads a UUID with `uuid::Uuid::parse_str`, a function of the text alone.
#[verifier::external_body]
pub(crate) fn parse_uuid(text: &str) -> (result: Option<u128>)
    ensures
        result == uuid_value(text@),
{
    match uuid::Uuid::parse_str(text) {
        Ok(value) => Some(value.as_u128()),
        Err(_) => None,
    }
}

/// Identifies a session.
#[derive(Debug, PartialEq, Eq, Hash, PartialOrd, Ord)]
pub struct SessionId {
    value: String,
}

impl View for SessionId {
    type V = Seq<char>;

    closed spec fn view(&self) -> Seq<char> {
        self.value@
    }
}

impl SessionId {
    /// Makes a new identifier: `ses_` and a fresh UUID in simple form.
    pub fn new() -> (result: Self)
        ensures
            is_new_id("ses_"@, result@),
    {
        let fresh = fresh_uuid();
        let value = concat("ses_", fresh.as_str());
        assert(value@.take("ses_"@.len() as int) =~= "ses_"@);
        assert(value@.skip("ses_"@.len() as int) =~= fresh@);
        SessionId { value }
    }

    /// Takes over a bare UUID of an older record, in its hyphenated form.
    pub fn from_legacy_uuid(value: u128) -> (result: Self)
        ensures
            result@ == uuid_text(value),
            uuid_value(result@) == Some(value),
    {
        SessionId { value: format_uuid(value) }
    }

    /// Takes over a text as it came, without reading anything into it.
    pub fn from_string(value: String) -> (result: Self)
        ensures
            result@ == value@,
    {
        SessionId { value }
    }

    pub fn as_str(&self) -> (result: &str)
        ensures
            result@ == self@,
    {
        self.value.as_str()
    }

    /// The identifier as a text of its own.
    pub fn to_text(&self) -> (result: String)
        ensures
            result@ == self@,
    {
        self.value.clone()
    }

    /// Tests whether two identifiers are the same text.
    pub fn same(&self, other: &Self) -> (result: bool)
        ensures
            result == (self@ == other@),
    {
        same_text(self.value.as_str(), other.value.as_str())
    }
}

impl Clone for SessionId {
    fn clone(&self) -> (result: Self)
        ensures
            result@ == self@,
            result == *self,
    {
        SessionId { value: self.value.clone() }
    }
}

impl Default for SessionId {
    fn default() -> (result: Self)
        ensures
            is_new_id("ses_"@, result@),
    {
        SessionId::new()
    }
}

impl From<String> for SessionId {
    fn from(value: String) -> (result: Self)
        ensures
            result@ == value@,
    {
        SessionId { value }
    }
}

impl vstd::std_specs::convert::FromSpecImpl<String> for SessionId {
    open spec fn obeys_from_spec() -> bool {
        true
    }

    closed spec fn from_spec(value: String) -> Self {
        SessionId { value }
    }
}

impl From<&str> for SessionId {
    fn from(value: &str) -> (result: Self)
        ensures
            result@ == value@,
    {
        SessionId { value: value.to_string() }
    }
}

impl vstd::std_specs::convert::FromSpecImpl<&str> for SessionId {
    open spec fn obeys_from_spec() -> bool {
        false
    }

    open spec fn from_spec(value: &str) -> Self {
        arbitrary()
    }
}

impl std::str::FromStr for SessionId {
    type Err = std::convert::Infallible;

    fn from_str(text: &str) -> (result: Result<Self, std::convert::Infallible>)
        ensures
            result matches Ok(id) && id@ == text@,
    {
        Ok(SessionId { value: text.to_string() })
    }
}

/// Identifies a turn.
#[derive(Debug, PartialEq, Eq, Hash, PartialOrd, Ord)]
pub struct TurnId {
    value: String,
}

impl View for TurnId {
    type V = Seq<char>;

    closed spec fn view(&self) -> Seq<char> {
        self.value@
    }
}

impl TurnId {
    /// Makes a new identifier: `turn_` and a fresh UUID in simple form.
    pub fn new() -> (result: Self)
        ensures
            is_new_id("turn_"@, result@),
    {
        let fresh = fresh_uuid();
        let value = concat("turn_", fresh.as_str());
        assert(value@.take("turn_"@.len() as int) =~= "turn_"@);
        assert(value@.skip("turn_"@.len() as int) =~= fresh@);
        TurnId { value }
    }

    /// Takes over a bare UUID of an older record, in its hyphenated form.
    pub fn from_legacy_uuid(value: u128) -> (result: Self)
        ensures
            result@ == uuid_text(value),
            uuid_value(result@) == Some(value),
    {
        TurnId { value: format_uuid(value) }
    }

    /// Takes over a text as it came, without reading anything into it.
    pub fn from_string(value: String) -> (result: Self)
        ensures
            result@ == value@,
    {
        TurnId { value }
    }

    pub fn as_str(&self) -> (result: &str)
        ensures
            result@ == self@,
    {
        self.value.as_str()
    }

    /// The identifier as a text of its own.
    pub fn to_text(&self) -> (result: String)
        ensures
            result@ == self@,
    {
        self.value.clone()
    }

    /// Tests whether two identifiers are the same text.
    pub fn same(&self, other: &Self) -> (result: bool)
        ensures
            result == (self@ == other@),
    {
        same_text(self.value.as_str(), other.value.as_str())
    }
}

impl Clone for TurnId {
    fn clone(&self) -> (result: Self)
        ensures
            result@ == self@,
            result == *self,
    {
        TurnId { value: self.value.clone() }
    }
}

impl Default for TurnId {
    fn default() -> (result: Self)
        ensures
            is_new_id("turn_"@, result@),
    {
        TurnId::new()
    }
}

impl From<String> for TurnId {
    fn from(value: String) -> (result: Self)
        ensures
            result@ == value@,
    {
        TurnId { value }
    }
}

impl vstd::std_specs::convert::FromSpecImpl<String> for TurnId {
    open spec fn obeys_from_spec() -> bool {
        true
    }

    closed spec fn from_spec(value: String) -> Self {
        TurnId { value }
    }
}

impl From<&str> for TurnId {
    fn from(value: &str) -> (result: Self)
        ensures
            result@ == value@,
    {
        TurnId { value: value.to_string() }
    }
}

impl vstd::std_specs::convert::FromSpecImpl<&str> for TurnId {
    open spec fn obeys_from_spec() -> bool {
        false
    }

    open spec fn from_spec(value: &str) -> Self {
        arbitrary()
    }
}

impl std::str::FromStr for TurnId {
    type Err = std::convert::Infallible;

    fn from_str(text: &str) -> (result: Result<Self, std::convert::Infallible>)
        ensures
            result matches Ok(id) && id@ == text@,
    {
        Ok(TurnId { value: text.to_string() })
    }
}

/// Identifies an item.
#[derive(Debug, PartialEq, Eq, Hash, PartialOrd, Ord)]
pub struct ItemId {
    value: String,
}

impl View for ItemId {
    type V = Seq<char>;

    closed spec fn view(&self) -> Seq<char> {
        self.value@
    }
}

impl ItemId {
    /// Makes a new identifier: `item_` and a fresh UUID in simple form.
    pub fn new() -> (result: Self)
        ensures
            is_new_id("item_"@, result@),
    {
        let fresh = fresh_uuid();
        let value = concat("item_", fresh.as_str());
        assert(value@.take("item_"@.len() as int) =~= "item_"@);
        assert(value@.skip("item_"@.len() as int) =~= fresh@);
        ItemId { value }
    }

    /// Takes over a bare UUID of an older record, in its hyphenated form.
    pub fn from_legacy_uuid(value: u128) -> (result: Self)
        ensures
            result@ == uuid_text(value),
            uuid_value(result@) == Some(value),
    {
        ItemId { value: format_uuid(value) }
    }

    /// Takes over a text as it came, without reading anything into it.
    pub fn from_string(value: String) -> (result: Self)
        ensures
            result@ == value@,
    {
        ItemId { value }
    }

    pub fn as_str(&self) -> (result: &str)
        ensures
            result@ == self@,
    {
        self.value.as_str()
    }

    /// The identifier as a text of its own.
    pub fn to_text(&self) -> (result: String)
        ensures
            result@ == self@,
    {
        self.value.clone()
    }

    /// Tests whether two identifiers are the same text.
    pub fn same(&self, other: &Self) -> (result: bool)
        ensures
            result == (self@ == other@),
    {
        same_text(self.value.as_str(), other.value.as_str())
    }
}

impl Clone for ItemId {
    fn clone(&self) -> (result: Self)
        ensures
            result@ == self@,
            result == *self,
    {
        ItemId { value: self.value.clone() }
    }
}

impl Default for ItemId {
    fn default() -> (result: Self)
        ensures
            is_new_id("item_"@, result@),
    {
        ItemId::new()
    }
}

impl From<String> for ItemId {
    fn from(value: String) -> (result: Self)
        ensures
            result@ == value@,
    {
        ItemId { value }
    }
}

impl vstd::std_specs::convert::FromSpecImpl<String> for ItemId {
    open spec fn obeys_from_spec() -> bool {
        true
    }

    closed spec fn from_spec(value: String) -> Self {
        ItemId { value }
    }
}

impl From<&str> for ItemId {
    fn from(value: &str) -> (result: Self)
        ensures
            result@ == value@,
    {
        ItemId { value: value.to_string() }
    }
}

impl vstd::std_specs::convert::FromSpecImpl<&str> for ItemId {
    open spec fn obeys_from_spec() -> bool {
        false
    }

    open spec fn from_spec(value: &str) -> Self {
        arbitrary()
    }
}

impl std::str::FromStr for ItemId {
    type Err = std::convert::Infallible;

    fn from_str(text: &str) -> (result: Result<Self, std::convert::Infallible>)
        ensures
            result matches Ok(id) && id@ == text@,
    {
        Ok(ItemId { value: text.to_string() })
    }
}

/// Identifies a goal.
#[derive(Debug, PartialEq, Eq, Hash, PartialOrd, Ord)]
pub struct GoalId {
    value: String,
}

impl View for GoalId {
    type V = Seq<char>;

    closed spec fn view(&self) -> Seq<char> {
        self.value@
    }
}

impl GoalId {
    /// Makes a new identifier: `goal_` and a fresh UUID in simple form.
    pub fn new() -> (result: Self)
        ensures
            is_new_id("goal_"@, result@),
    {
        let fresh = fresh_uuid();
        let value = concat("goal_", fresh.as_str());
        assert(value@.take("goal_"@.len() as int) =~= "goal_"@);
        assert(value@.skip("goal_"@.len() as int) =~= fresh@);
        GoalId { value }
    }

    /// Takes over a bare UUID of an older record, in its hyphenated form.
    pub fn from_legacy_uuid(value: u128) -> (result: Self)
        ensures
            result@ == uuid_text(value),
            uuid_value(result@) == Some(value),
    {
        GoalId { value: format_uuid(value) }
    }

    /// Takes over a text as it came, without reading anything into it.
    pub fn from_string(value: String) -> (result: Self)
        ensures
            result@ == value@,
    {
        GoalId { value }
    }

    pub fn as_str(&self) -> (result: &str)
        ensures
            result@ == self@,
    {
        self.value.as_str()
    }

    /// The identifier as a text of its own.
    pub fn to_text(&self) -> (result: String)
        ensures
            result@ == self@,
    {
        self.value.clone()
    }

    /// Tests whether two identifiers are the same text.
    pub fn same(&self, other: &Self) -> (result: bool)
        ensures
            result == (self@ == other@),
    {
        same_text(self.value.as_str(), other.value.as_str())
    }
}

impl Clone for GoalId {
    fn clone(&self) -> (result: Self)
        ensures
            result@ == self@,
            result == *self,
    {
        GoalId { value: self.value.clone() }
    }
}

impl Default for GoalId {
    fn default() -> (result: Self)
        ensures
            is_new_id("goal_"@, result@),
    {
        GoalId::new()
    }
}

impl From<String> for GoalId {
    fn from(value: String) -> (result: Self)
        ensures
            result@ == value@,
    {
        GoalId { value }
    }
}

impl vstd::std_specs::convert::FromSpecImpl<String> for GoalId {
    open spec fn obeys_from_spec() -> bool {
        true
    }

    closed spec fn from_spec(value: String) -> Self {
        GoalId { value }
    }
}

impl From<&str> for GoalId {
    fn from(value: &str) -> (result: Self)
        ensures
            result@ == value@,
    {
        GoalId { value: value.to_string() }
    }
}

impl vstd::std_specs::convert::FromSpecImpl<&str> for GoalId {
    open spec fn obeys_from_spec() -> bool {
        false
    }

    open spec fn from_spec(value: &str) -> Self {
        arbitrary()
    }
}

impl std::str::FromStr for GoalId {
    type Err = std::convert::Infallible;

    fn from_str(text: &str) -> (result: Result<Self, std::convert::Infallible>)
        ensures
            result matches Ok(id) && id@ == text@,
    {
        Ok(GoalId { value: text.to_string() })
    }
}

/// Identifies an event.
#[derive(Debug, PartialEq, Eq, Hash, PartialOrd, Ord)]
pub struct EventId {
    value: String,
}

impl View for EventId {
    type V = Seq<char>;

    closed spec fn view(&self) -> Seq<char> {
        self.value@
    }
}

impl EventId {
    /// Makes a new identifier: `evt_` and a fresh UUID in simple form.
    pub fn new() -> (result: Self)
        ensures
            is_new_id("evt_"@, result@),
    {
        let fresh = fresh_uuid();
        let value = concat("evt_", fresh.as_str());
        assert(value@.take("evt_"@.len() as int) =~= "evt_"@);
        assert(value@.skip("evt_"@.len() as int) =~= fresh@);
        EventId { value }
    }

    /// Takes over a bare UUID of an older record, in its hyphenated form.
    pub fn from_legacy_uuid(value: u128) -> (result: Self)
        ensures
            result@ == uuid_text(value),
            uuid_value(result@) == Some(value),
    {
        EventId { value: format_uuid(value) }
    }

    /// Takes over a text as it came, without reading anything into it.
    pub fn from_string(value: String) -> (result: Self)
        ensures
            result@ == value@,
    {
        EventId { value }
    }

    pub fn as_str(&self) -> (result: &str)
        ensures
            result@ == self@,
    {
        self.value.as_str()
    }

    /// The identifier as a text of its own.
    pub fn to_text(&self) -> (result: String)
        ensures
            result@ == self@,
    {
        self.value.clone()
    }

    /// Tests whether two identifiers are the same text.
    pub fn same(&self, other: &Self) -> (result: bool)
        ensures
            result == (self@ == other@),
    {
        same_text(self.value.as_str(), other.value.as_str())
    }
}

impl Clone for EventId {
    fn clone(&self) -> (result: Self)
        ensures
            result@ == self@,
            result == *self,
    {
        EventId { value: self.value.clone() }
    }
}

impl Default for EventId {
    fn default() -> (result: Self)
        ensures
            is_new_id("evt_"@, result@),
    {
        EventId::new()
    }
}

impl From<String> for EventId {
    fn from(value: String) -> (result: Self)
        ensures
            result@ == value@,
    {
        EventId { value }
    }
}

impl vstd::std_specs::convert::FromSpecImpl<String> for EventId {
    open spec fn obeys_from_spec() -> bool {
        true
    }

    closed spec fn from_spec(value: String) -> Self {
        EventId { value }
    }
}

impl From<&str> for EventId {
    fn from(value: &str) -> (result: Self)
        ensures
            result@ == value@,
    {
        EventId { value: value.to_string() }
    }
}

impl vstd::std_specs::convert::FromSpecImpl<&str> for EventId {
    open spec fn obeys_from_spec() -> bool {
        false
    }

    open spec fn from_spec(value: &str) -> Self {
        arbitrary()
    }
}

impl std::str::FromStr for EventId {
    type Err = std::convert::Infallible;

    fn from_str(text: &str) -> (result: Result<Self, std::convert::Infallible>)
        ensures
            result matches Ok(id) && id@ == text@,
    {
        Ok(EventId { value: text.to_string() })
    }
}

/// Identifies a run.
#[derive(Debug, PartialEq, Eq, Hash, PartialOrd, Ord)]
pub struct RunId {
    value: String,
}

impl View for RunId {
    type V = Seq<char>;

    closed spec fn view(&self) -> Seq<char> {
        self.value@
    }
}

impl RunId {
    /// Makes a new identifier: `run_` and a fresh UUID in simple form.
    pub fn new() -> (result: Self)
        ensures
            is_new_id("run_"@, result@),
    {
        let fresh = fresh_uuid();
        let value = concat("run_", fresh.as_str());
        assert(value@.take("run_"@.len() as int) =~= "run_"@);
        assert(value@.skip("run_"@.len() as int) =~= fresh@);
        RunId { value }
    }

    /// Takes over a bare UUID of an older record, in its hyphenated form.
    pub fn from_legacy_uuid(value: u128) -> (result: Self)
        ensures
            result@ == uuid_text(value),
            uuid_value(result@) == Some(value),
    {
        RunId { value: format_uuid(value) }
    }

    /// Takes over a text as it came, without reading anything into it.
    pub fn from_string(value: String) -> (result: Self)
        ensures
            result@ == value@,
    {
        RunId { value }
    }

    pub fn as_str(&self) -> (result: &str)
        ensures
            result@ == self@,
    {
        self.value.as_str()
    }

    /// The identifier as a text of its own.
    pub fn to_text(&self) -> (result: String)
        ensures
            result@ == self@,
    {
        self.value.clone()
    }

    /// Tests whether two identifiers are the same text.
    pub fn same(&self, other: &Self) -> (result: bool)
        ensures
            result == (self@ == other@),
    {
        same_text(self.value.as_str(), other.value.as_str())
    }
}

impl Clone for RunId {
    fn clone(&self) -> (result: Self)
        ensures
            result@ == self@,
            result == *self,
    {
        RunId { value: self.value.clone() }
    }
}

impl Default for RunId {
    fn default() -> (result: Self)
        ensures
            is_new_id("run_"@, result@),
    {
        RunId::new()
    }
}

impl From<String> for RunId {
    fn from(value: String) -> (result: Self)
        ensures
            result@ == value@,
    {
        RunId { value }
    }
}

impl vstd::std_specs::convert::FromSpecImpl<String> for RunId {
    open spec fn obeys_from_spec() -> bool {
        true
    }

    closed spec fn from_spec(value: String) -> Self {
        RunId { value }
    }
}

impl From<&str> for RunId {
    fn from(value: &str) -> (result: Self)
        ensures
            result@ == value@,
    {
        RunId { value: value.to_string() }
    }
}

impl vstd::std_specs::convert::FromSpecImpl<&str> for RunId {
    open spec fn obeys_from_spec() -> bool {
        false
    }

    open spec fn from_spec(value: &str) -> Self {
        arbitrary()
    }
}

impl std::str::FromStr for RunId {
    type Err = std::convert::Infallible;

    fn from_str(text: &str) -> (result: Result<Self, std::convert::Infallible>)
        ensures
            result matches Ok(id) && id@ == text@,
    {
        Ok(RunId { value: text.to_string() })
    }
}

/// Identifies a subscription.
#[derive(Debug, PartialEq, Eq, Hash, PartialOrd, Ord)]
pub struct SubscriptionId {
    value: String,
}

impl View for SubscriptionId {
    type V = Seq<char>;

    closed spec fn view(&self) -> Seq<char> {
        self.value@
    }
}

impl SubscriptionId {
    /// Makes a new identifier: `sub_` and a fresh UUID in simple form.
    pub fn new() -> (result: Self)
        ensures
            is_new_id("sub_"@, result@),
    {
        let fresh = fresh_uuid();
        let value = concat("sub_", fresh.as_str());
        assert(value@.take("sub_"@.len() as int) =~= "sub_"@);
        assert(value@.skip("sub_"@.len() as int) =~= fresh@);
        SubscriptionId { value }
    }

    /// Takes over a bare UUID of an older record, in its hyphenated form.
    pub fn from_legacy_uuid(value: u128) -> (result: Self)
        ensures
            result@ == uuid_text(value),
            uuid_value(result@) == Some(value),
    {
        SubscriptionId { value: format_uuid(value) }
    }

    /// Takes over a text as it came, without reading anything into it.
    pub fn from_string(value: String) -> (result: Self)
        ensures
            result@ == value@,
    {
        SubscriptionId { value }
    }

    pub fn as_str(&self) -> (result: &str)
        ensures
            result@ == self@,
    {
        self.value.as_str()
    }

    /// The identifier as a text of its own.
    pub fn to_text(&self) -> (result: String)
        ensures
            result@ == self@,
    {
        self.value.clone()
    }

    /// Tests whether two identifiers are the same text.
    pub fn same(&self, other: &Self) -> (result: bool)
        ensures
            result == (self@ == other@),
    {
        same_text(self.value.as_str(), other.value.as_str())
    }
}

impl Clone for SubscriptionId {
    fn clone(&self) -> (result: Self)
        ensures
            result@ == self@,
            result == *self,
    {
        SubscriptionId { value: self.value.clone() }
    }
}

impl Default for SubscriptionId {
    fn default() -> (result: Self)
        ensures
            is_new_id("sub_"@, result@),
    {
        SubscriptionId::new()
    }
}

impl From<String> for SubscriptionId {
    fn from(value: String) -> (result: Self)
        ensures
            result@ == value@,
    {
        SubscriptionId { value }
    }
}

impl vstd::std_specs::convert::FromSpecImpl<String> for SubscriptionId {
    open spec fn obeys_from_spec() -> bool {
        true
    }

    closed spec fn from_spec(value: String) -> Self {
        SubscriptionId { value }
    }
}

impl From<&str> for SubscriptionId {
    fn from(value: &str) -> (result: Self)
        ensures
            result@ == value@,
    {
        SubscriptionId { value: value.to_string() }
    }
}

impl vstd::std_specs::convert::FromSpecImpl<&str> for SubscriptionId {
    open spec fn obeys_from_spec() -> bool {
        false
    }

    open spec fn from_spec(value: &str) -> Self {
        arbitrary()
    }
}

impl std::str::FromStr for SubscriptionId {
    type Err = std::convert::Infallible;

    fn from_str(text: &str) -> (result: Result<Self, std::convert::Infallible>)
        ensures
            result matches Ok(id) && id@ == text@,
    {
        Ok(SubscriptionId { value: text.to_string() })
    }
}

/// Identifies a queued input.
#[derive(Debug, PartialEq, Eq, Hash, PartialOrd, Ord)]
pub struct QueueItemId {
    value: String,
}

impl View for QueueItemId {
    type V = Seq<char>;

    closed spec fn view(&self) -> Seq<char> {
        self.value@
    }
}

impl QueueItemId {
    /// Makes a new identifier: `qit_` and a fresh UUID in simple form.
    pub fn new() -> (result: Self)
        ensures
            is_new_id("qit_"@, result@),
    {
        let fresh = fresh_uuid();
        let value = concat("qit_", fresh.as_str());
        assert(value@.take("qit_"@.len() as int) =~= "qit_"@);
        assert(value@.skip("qit_"@.len() as int) =~= fresh@);
        QueueItemId { value }
    }

    /// Takes over a bare UUID of an older record, in its hyphenated form.
    pub fn from_legacy_uuid(value: u128) -> (result: Self)
        ensures
            result@ == uuid_text(value),
            uuid_value(result@) == Some(value),
    {
        QueueItemId { value: format_uuid(value) }
    }

    /// Takes over a text as it came, without reading anything into it.
    pub fn from_string(value: String) -> (result: Self)
        ensures
            result@ == value@,
    {
        QueueItemId { value }
    }

    pub fn as_str(&self) -> (result: &str)
        ensures
            result@ == self@,
    {
        self.value.as_str()
    }

    /// The identifier as a text of its own.
    pub fn to_text(&self) -> (result: String)
        ensures
            result@ == self@,
    {
        self.value.clone()
    }

    /// Tests whether two identifiers are the same text.
    pub fn same(&self, other: &Self) -> (result: bool)
        ensures
            result == (self@ == other@),
    {
        same_text(self.value.as_str(), other.value.as_str())
    }
}

impl Clone for QueueItemId {
    fn clone(&self) -> (result: Self)
        ensures
            result@ == self@,
            result == *self,
    {
        QueueItemId { value: self.value.clone() }
    }
}

impl Default for QueueItemId {
    fn default() -> (result: Self)
        ensures
            is_new_id("qit_"@, result@),
    {
        QueueItemId::new()
    }
}

impl From<String> for QueueItemId {
    fn from(value: String) -> (result: Self)
        ensures
            result@ == value@,
    {
        QueueItemId { value }
    }
}

impl vstd::std_specs::convert::FromSpecImpl<String> for QueueItemId {
    open spec fn obeys_from_spec() -> bool {
        true
    }

    closed spec fn from_spec(value: String) -> Self {
        QueueItemId { value }
    }
}

impl From<&str> for QueueItemId {
    fn from(value: &str) -> (result: Self)
        ensures
            result@ == value@,
    {
        QueueItemId { value: value.to_string() }
    }
}

impl vstd::std_specs::convert::FromSpecImpl<&str> for QueueItemId {
    open spec fn obeys_from_spec() -> bool {
        false
    }

    open spec fn from_spec(value: &str) -> Self {
        arbitrary()
    }
}

impl std::str::FromStr for QueueItemId {
    type Err = std::convert::Infallible;

    fn from_str(text: &str) -> (result: Result<Self, std::convert::Infallible>)
        ensures
            result matches Ok(id) && id@ == text@,
    {
        Ok(QueueItemId { value: text.to_string() })
    }
}

/// Identifies a restore plan.
#[derive(Debug, PartialEq, Eq, Hash, PartialOrd, Ord)]
pub struct RestorePlanId {
    value: String,
}

impl View for RestorePlanId {
    type V = Seq<char>;

    closed spec fn view(&self) -> Seq<char> {
        self.value@
    }
}

impl RestorePlanId {
    /// Makes a new identifier: `rpl_` and a fresh UUID in simple form.
    pub fn new() -> (result: Self)
        ensures
            is_new_id("rpl_"@, result@),
    {
        let fresh = fresh_uuid();
        let value = concat("rpl_", fresh.as_str());
        assert(value@.take("rpl_"@.len() as int) =~= "rpl_"@);
        assert(value@.skip("rpl_"@.len() as int) =~= fresh@);
        RestorePlanId { value }
    }

    /// Takes over a bare UUID of an older record, in its hyphenated form.
    pub fn from_legacy_uuid(value: u128) -> (result: Self)
        ensures
            result@ == uuid_text(value),
            uuid_value(result@) == Some(value),
    {
        RestorePlanId { value: format_uuid(value) }
    }

    /// Takes over a text as it came, without reading anything into it.
    pub fn from_string(value: String) -> (result: Self)
        ensures
            result@ == value@,
    {
        RestorePlanId { value }
    }

    pub fn as_str(&self) -> (result: &str)
        ensures
            result@ == self@,
    {
        self.value.as_str()
    }

    /// The identifier as a text of its own.
    pub fn to_text(&self) -> (result: String)
        ensures
            result@ == self@,
    {
        self.value.clone()
    }

    /// Tests whether two identifiers are the same text.
    pub fn same(&self, other: &Self) -> (result: bool)
        ensures
            result == (self@ == other@),
    {
        same_text(self.value.as_str(), other.value.as_str())
    }
}

impl Clone for RestorePlanId {
    fn clone(&self) -> (result: Self)
        ensures
            result@ == self@,
            result == *self,
    {
        RestorePlanId { value: self.value.clone() }
    }
}

impl Default for RestorePlanId {
    fn default() -> (result: Self)
        ensures
            is_new_id("rpl_"@, result@),
    {
        RestorePlanId::new()
    }
}

impl From<String> for RestorePlanId {
    fn from(value: String) -> (result: Self)
        ensures
            result@ == value@,
    {
        RestorePlanId { value }
    }
}

impl vstd::std_specs::convert::FromSpecImpl<String> for RestorePlanId {
    open spec fn obeys_from_spec() -> bool {
        true
    }

    closed spec fn from_spec(value: String) -> Self {
        RestorePlanId { value }
    }
}

impl From<&str> for RestorePlanId {
    fn from(value: &str) -> (result: Self)
        ensures
            result@ == value@,
    {
        RestorePlanId { value: value.to_string() }
    }
}

impl vstd::std_specs::convert::FromSpecImpl<&str> for RestorePlanId {
    open spec fn obeys_from_spec() -> bool {
        false
    }

    open spec fn from_spec(value: &str) -> Self {
        arbitrary()
    }
}

impl std::str::FromStr for RestorePlanId {
    type Err = std::convert::Infallible;

    fn from_str(text: &str) -> (result: Result<Self, std::convert::Infallible>)
        ensures
            result matches Ok(id) && id@ == text@,
    {
        Ok(RestorePlanId { value: text.to_string() })
    }
}

/// Identifies a memory entry.
#[derive(Debug, PartialEq, Eq, Hash, PartialOrd, Ord)]
pub struct MemoryEntryId {
    value: String,
}

impl View for MemoryEntryId {
    type V = Seq<char>;

    closed spec fn view(&self) -> Seq<char> {
        self.value@
    }
}

impl MemoryEntryId {
    /// Makes a new identifier: `mem_` and a fresh UUID in simple form.
    pub fn new() -> (result: Self)
        ensures
            is_new_id("mem_"@, result@),
    {
        let fresh = fresh_uuid();
        let value = concat("mem_", fresh.as_str());
        assert(value@.take("mem_"@.len() as int) =~= "mem_"@);
        assert(value@.skip("mem_"@.len() as int) =~= fresh@);
        MemoryEntryId { value }
    }

    /// Takes over a bare UUID of an older record, in its hyphenated form.
    pub fn from_legacy_uuid(value: u128) -> (result: Self)
        ensures
            result@ == uuid_text(value),
            uuid_value(result@) == Some(value),
    {
        MemoryEntryId { value: format_uuid(value) }
    }

    /// Takes over a text as it came, without reading anything into it.
    pub fn from_string(value: String) -> (result: Self)
        ensures
            result@ == value@,
    {
        MemoryEntryId { value }
    }

    pub fn as_str(&self) -> (result: &str)
        ensures
            result@ == self@,
    {
        self.value.as_str()
    }

    /// The identifier as a text of its own.
    pub fn to_text(&self) -> (result: String)
        ensures
            result@ == self@,
    {
        self.value.clone()
    }

    /// Tests whether two identifiers are the same text.
    pub fn same(&self, other: &Self) -> (result: bool)
        ensures
            result == (self@ == other@),
    {
        same_text(self.value.as_str(), other.value.as_str())
    }
}

impl Clone for MemoryEntryId {
    fn clone(&self) -> (result: Self)
        ensures
            result@ == self@,
            result == *self,
    {
        MemoryEntryId { value: self.value.clone() }
    }
}

impl Default for MemoryEntryId {
    fn default() -> (result: Self)
        ensures
            is_new_id("mem_"@, result@),
    {
        MemoryEntryId::new()
    }
}

impl From<String> for MemoryEntryId {
    fn from(value: String) -> (result: Self)
        ensures
            result@ == value@,
    {
        MemoryEntryId { value }
    }
}

impl vstd::std_specs::convert::FromSpecImpl<String> for MemoryEntryId {
    open spec fn obeys_from_spec() -> bool {
        true
    }

    closed spec fn from_spec(value: String) -> Self {
        MemoryEntryId { value }
    }
}

impl From<&str> for MemoryEntryId {
    fn from(value: &str) -> (result: Self)
        ensures
            result@ == value@,
    {
        MemoryEntryId { value: value.to_string() }
    }
}

impl vstd::std_specs::convert::FromSpecImpl<&str> for MemoryEntryId {
    open spec fn obeys_from_spec() -> bool {
        false
    }

    open spec fn from_spec(value: &str) -> Self {
        arbitrary()
    }
}

impl std::str::FromStr for MemoryEntryId {
    type Err = std::convert::Infallible;

    fn from_str(text: &str) -> (result: Result<Self, std::convert::Infallible>)
        ensures
            result matches Ok(id) && id@ == text@,
    {
        Ok(MemoryEntryId { value: text.to_string() })
    }
}

} // verus!
