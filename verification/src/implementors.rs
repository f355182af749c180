//! The stored forms of the values that the library knows: primitive values
//! are stored as themselves, identifiers as their number, `usize` and
//! `isize` as their 64-bit counterparts, and an `Option` as the option of the
//! stored form.
use vstd::prelude::*;
use twilight_model::id::{
    ApplicationId, AttachmentId, AuditLogEntryId, ChannelId, CommandId, EmojiId, GenericId,
    GuildId, IntegrationId, InteractionId, MessageId, RoleId, StageId, UserId, WebhookId,
};
use crate::transform::{Transformer, round_trips};

verus! {

impl Transformer for u8 {
    type DataType = Self;

    open spec fn obeys_transform_spec() -> bool {
        true
    }

    open spec fn transformed(&self) -> Self {
        *self
    }

    open spec fn reverted(value: Self) -> Self {
        value
    }

    fn transform(&self) -> (r: Self) {
        *self
    }

    fn revert(value: &Self) -> (r: Self) {
        *value
    }
}

impl Transformer for u16 {
    type DataType = Self;

    open spec fn obeys_transform_spec() -> bool {
        true
    }

    open spec fn transformed(&self) -> Self {
        *self
    }

    open spec fn reverted(value: Self) -> Self {
        value
    }

    fn transform(&self) -> (r: Self) {
        *self
    }

    fn revert(value: &Self) -> (r: Self) {
        *value
    }
}

impl Transformer for u32 {
    type DataType = Self;

    open spec fn obeys_transform_spec() -> bool {
        true
    }

    open spec fn transformed(&self) -> Self {
        *self
    }

    open spec fn reverted(value: Self) -> Self {
        value
    }

    fn transform(&self) -> (r: Self) {
        *self
    }

    fn revert(value: &Self) -> (r: Self) {
        *value
    }
}

impl Transformer for u64 {
    type DataType = Self;

    open spec fn obeys_transform_spec() -> bool {
        true
    }

    open spec fn transformed(&self) -> Self {
        *self
    }

    open spec fn reverted(value: Self) -> Self {
        value
    }

    fn transform(&self) -> (r: Self) {
        *self
    }

    fn revert(value: &Self) -> (r: Self) {
        *value
    }
}

impl Transformer for u128 {
    type DataType = Self;

    open spec fn obeys_transform_spec() -> bool {
        true
    }

    open spec fn transformed(&self) -> Self {
        *self
    }

    open spec fn reverted(value: Self) -> Self {
        value
    }

    fn transform(&self) -> (r: Self) {
        *self
    }

    fn revert(value: &Self) -> (r: Self) {
        *value
    }
}

impl Transformer for i8 {
    type DataType = Self;

    open spec fn obeys_transform_spec() -> bool {
        true
    }

    open spec fn transformed(&self) -> Self {
        *self
    }

    open spec fn reverted(value: Self) -> Self {
        value
    }

    fn transform(&self) -> (r: Self) {
        *self
    }

    fn revert(value: &Self) -> (r: Self) {
        *value
    }
}

impl Transformer for i16 {
    type DataType = Self;

    open spec fn obeys_transform_spec() -> bool {
        true
    }

    open spec fn transformed(&self) -> Self {
        *self
    }

    open spec fn reverted(value: Self) -> Self {
        value
    }

    fn transform(&self) -> (r: Self) {
        *self
    }

    fn revert(value: &Self) -> (r: Self) {
        *value
    }
}

impl Transformer for i32 {
    type DataType = Self;

    open spec fn obeys_transform_spec() -> bool {
        true
    }

    open spec fn transformed(&self) -> Self {
        *self
    }

    open spec fn reverted(value: Self) -> Self {
        value
    }

    fn transform(&self) -> (r: Self) {
        *self
    }

    fn revert(value: &Self) -> (r: Self) {
        *value
    }
}

impl Transformer for i64 {
    type DataType = Self;

    open spec fn obeys_transform_spec() -> bool {
        true
    }

    open spec fn transformed(&self) -> Self {
        *self
    }

    open spec fn reverted(value: Self) -> Self {
        value
    }

    fn transform(&self) -> (r: Self) {
        *self
    }

    fn revert(value: &Self) -> (r: Self) {
        *value
    }
}

impl Transformer for i128 {
    type DataType = Self;

    open spec fn obeys_transform_spec() -> bool {
        true
    }

    open spec fn transformed(&self) -> Self {
        *self
    }

    open spec fn reverted(value: Self) -> Self {
        value
    }

    fn transform(&self) -> (r: Self) {
        *self
    }

    fn revert(value: &Self) -> (r: Self) {
        *value
    }
}

impl Transformer for bool {
    type DataType = Self;

    open spec fn obeys_transform_spec() -> bool {
        true
    }

    open spec fn transformed(&self) -> Self {
        *self
    }

    open spec fn reverted(value: Self) -> Self {
        value
    }

    fn transform(&self) -> (r: Self) {
        *self
    }

    fn revert(value: &Self) -> (r: Self) {
        *value
    }
}

/// `twilight_model::id::ApplicationId`, a tuple struct around the identifier's
/// number in its one public field.
#[verifier::external_type_specification]
pub struct ExApplicationId(ApplicationId);

impl Transformer for ApplicationId {
    type DataType = u64;

    open spec fn obeys_transform_spec() -> bool {
        true
    }

    open spec fn transformed(&self) -> u64 {
        self.0
    }

    open spec fn reverted(value: u64) -> Self {
        ApplicationId(value)
    }

    fn transform(&self) -> (r: u64) {
        self.0
    }

    fn revert(value: &u64) -> (r: Self) {
        ApplicationId(*value)
    }
}

/// `twilight_model::id::AttachmentId`, a tuple struct around the identifier's
/// number in its one public field.
#[verifier::external_type_specification]
pub struct ExAttachmentId(AttachmentId);

impl Transformer for AttachmentId {
    type DataType = u64;

    open spec fn obeys_transform_spec() -> bool {
        true
    }

    open spec fn transformed(&self) -> u64 {
        self.0
    }

    open spec fn reverted(value: u64) -> Self {
        AttachmentId(value)
    }

    fn transform(&self) -> (r: u64) {
        self.0
    }

    fn revert(value: &u64) -> (r: Self) {
        AttachmentId(*value)
    }
}

/// `twilight_model::id::AuditLogEntryId`, a tuple struct around the identifier's
/// number in its one public field.
#[verifier::external_type_specification]
pub struct ExAuditLogEntryId(AuditLogEntryId);

impl Transformer for AuditLogEntryId {
    type DataType = u64;

    open spec fn obeys_transform_spec() -> bool {
        true
    }

    open spec fn transformed(&self) -> u64 {
        self.0
    }

    open spec fn reverted(value: u64) -> Self {
        AuditLogEntryId(value)
    }

    fn transform(&self) -> (r: u64) {
        self.0
    }

    fn revert(value: &u64) -> (r: Self) {
        AuditLogEntryId(*value)
    }
}

/// `twilight_model::id::ChannelId`, a tuple struct around the identifier's
/// number in its one public field.
#[verifier::external_type_specification]
pub struct ExChannelId(ChannelId);

impl Transformer for ChannelId {
    type DataType = u64;

    open spec fn obeys_transform_spec() -> bool {
        true
    }

    open spec fn transformed(&self) -> u64 {
        self.0
    }

    open spec fn reverted(value: u64) -> Self {
        ChannelId(value)
    }

    fn transform(&self) -> (r: u64) {
        self.0
    }

    fn revert(value: &u64) -> (r: Self) {
        ChannelId(*value)
    }
}

/// `twilight_model::id::CommandId`, a tuple struct around the identifier's
/// number in its one public field.
#[verifier::external_type_specification]
pub struct ExCommandId(CommandId);

impl Transformer for CommandId {
    type DataType = u64;

    open spec fn obeys_transform_spec() -> bool {
        true
    }

    open spec fn transformed(&self) -> u64 {
        self.0
    }

    open spec fn reverted(value: u64) -> Self {
        CommandId(value)
    }

    fn transform(&self) -> (r: u64) {
        self.0
    }

    fn revert(value: &u64) -> (r: Self) {
        CommandId(*value)
    }
}

/// `twilight_model::id::EmojiId`, a tuple struct around the identifier's
/// number in its one public field.
#[verifier::external_type_specification]
pub struct ExEmojiId(EmojiId);

impl Transformer for EmojiId {
    type DataType = u64;

    open spec fn obeys_transform_spec() -> bool {
        true
    }

    open spec fn transformed(&self) -> u64 {
        self.0
    }

    open spec fn reverted(value: u64) -> Self {
        EmojiId(value)
    }

    fn transform(&self) -> (r: u64) {
        self.0
    }

    fn revert(value: &u64) -> (r: Self) {
        EmojiId(*value)
    }
}

/// `twilight_model::id::GenericId`, a tuple struct around the identifier's
/// number in its one public field.
#[verifier::external_type_specification]
pub struct ExGenericId(GenericId);

impl Transformer for GenericId {
    type DataType = u64;

    open spec fn obeys_transform_spec() -> bool {
        true
    }

    open spec fn transformed(&self) -> u64 {
        self.0
    }

    open spec fn reverted(value: u64) -> Self {
        GenericId(value)
    }

    fn transform(&self) -> (r: u64) {
        self.0
    }

    fn revert(value: &u64) -> (r: Self) {
        GenericId(*value)
    }
}

/// `twilight_model::id::GuildId`, a tuple struct around the identifier's
/// number in its one public field.
#[verifier::external_type_specification]
pub struct ExGuildId(GuildId);

impl Transformer for GuildId {
    type DataType = u64;

    open spec fn obeys_transform_spec() -> bool {
        true
    }

    open spec fn transformed(&self) -> u64 {
        self.0
    }

    open spec fn reverted(value: u64) -> Self {
        GuildId(value)
    }

    fn transform(&self) -> (r: u64) {
        self.0
    }

    fn revert(value: &u64) -> (r: Self) {
        GuildId(*value)
    }
}

/// `twilight_model::id::IntegrationId`, a tuple struct around the identifier's
/// number in its one public field.
#[verifier::external_type_specification]
pub struct ExIntegrationId(IntegrationId);

impl Transformer for IntegrationId {
    type DataType = u64;

    open spec fn obeys_transform_spec() -> bool {
        true
    }

    open spec fn transformed(&self) -> u64 {
        self.0
    }

    open spec fn reverted(value: u64) -> Self {
        IntegrationId(value)
    }

    fn transform(&self) -> (r: u64) {
        self.0
    }

    fn revert(value: &u64) -> (r: Self) {
        IntegrationId(*value)
    }
}

/// `twilight_model::id::InteractionId`, a tuple struct around the identifier's
/// number in its one public field.
#[verifier::external_type_specification]
pub struct ExInteractionId(InteractionId);

impl Transformer for InteractionId {
    type DataType = u64;

    open spec fn obeys_transform_spec() -> bool {
        true
    }

    open spec fn transformed(&self) -> u64 {
        self.0
    }

    open spec fn reverted(value: u64) -> Self {
        InteractionId(value)
    }

    fn transform(&self) -> (r: u64) {
        self.0
    }

    fn revert(value: &u64) -> (r: Self) {
        InteractionId(*value)
    }
}

/// `twilight_model::id::MessageId`, a tuple struct around the identifier's
/// number in its one public field.
#[verifier::external_type_specification]
pub struct ExMessageId(MessageId);

impl Transformer for MessageId {
    type DataType = u64;

    open spec fn obeys_transform_spec() -> bool {
        true
    }

    open spec fn transformed(&self) -> u64 {
        self.0
    }

    open spec fn reverted(value: u64) -> Self {
        MessageId(value)
    }

    fn transform(&self) -> (r: u64) {
        self.0
    }

    fn revert(value: &u64) -> (r: Self) {
        MessageId(*value)
    }
}

/// `twilight_model::id::RoleId`, a tuple struct around the identifier's
/// number in its one public field.
#[verifier::external_type_specification]
pub struct ExRoleId(RoleId);

impl Transformer for RoleId {
    type DataType = u64;

    open spec fn obeys_transform_spec() -> bool {
        true
    }

    open spec fn transformed(&self) -> u64 {
        self.0
    }

    open spec fn reverted(value: u64) -> Self {
        RoleId(value)
    }

    fn transform(&self) -> (r: u64) {
        self.0
    }

    fn revert(value: &u64) -> (r: Self) {
        RoleId(*value)
    }
}

/// `twilight_model::id::StageId`, a tuple struct around the identifier's
/// number in its one public field.
#[verifier::external_type_specification]
pub struct ExStageId(StageId);

impl Transformer for StageId {
    type DataType = u64;

    open spec fn obeys_transform_spec() -> bool {
        true
    }

    open spec fn transformed(&self) -> u64 {
        self.0
    }

    open spec fn reverted(value: u64) -> Self {
        StageId(value)
    }

    fn transform(&self) -> (r: u64) {
        self.0
    }

    fn revert(value: &u64) -> (r: Self) {
        StageId(*value)
    }
}

/// `twilight_model::id::UserId`, a tuple struct around the identifier's
/// number in its one public field.
#[verifier::external_type_specification]
pub struct ExUserId(UserId);

impl Transformer for UserId {
    type DataType = u64;

    open spec fn obeys_transform_spec() -> bool {
        true
    }

    open spec fn transformed(&self) -> u64 {
        self.0
    }

    open spec fn reverted(value: u64) -> Self {
        UserId(value)
    }

    fn transform(&self) -> (r: u64) {
        self.0
    }

    fn revert(value: &u64) -> (r: Self) {
        UserId(*value)
    }
}

/// `twilight_model::id::WebhookId`, a tuple struct around the identifier's
/// number in its one public field.
#[verifier::external_type_specification]
pub struct ExWebhookId(WebhookId);

impl Transformer for WebhookId {
    type DataType = u64;

    open spec fn obeys_transform_spec() -> bool {
        true
    }

    open spec fn transformed(&self) -> u64 {
        self.0
    }

    open spec fn reverted(value: u64) -> Self {
        WebhookId(value)
    }

    fn transform(&self) -> (r: u64) {
        self.0
    }

    fn revert(value: &u64) -> (r: Self) {
        WebhookId(*value)
    }
}

impl Transformer for String {
    type DataType = Self;

    open spec fn obeys_transform_spec() -> bool {
        true
    }

    open spec fn transformed(&self) -> Self {
        *self
    }

    open spec fn reverted(value: Self) -> Self {
        value
    }

    fn transform(&self) -> (r: Self) {
        self.clone()
    }

    fn revert(value: &Self) -> (r: Self) {
        value.clone()
    }
}

impl Transformer for usize {
    type DataType = u64;

    open spec fn obeys_transform_spec() -> bool {
        true
    }

    open spec fn transformed(&self) -> u64 {
        *self as u64
    }

    open spec fn reverted(value: u64) -> Self {
        value as usize
    }

    fn transform(&self) -> (r: u64) {
        *self as u64
    }

    fn revert(value: &u64) -> (r: Self) {
        *value as usize
    }
}

impl Transformer for isize {
    type DataType = i64;

    open spec fn obeys_transform_spec() -> bool {
        true
    }

    open spec fn transformed(&self) -> i64 {
        *self as i64
    }

    open spec fn reverted(value: i64) -> Self {
        value as isize
    }

    fn transform(&self) -> (r: i64) {
        *self as i64
    }

    fn revert(value: &i64) -> (r: Self) {
        *value as isize
    }
}

impl<Dt, T: Transformer<DataType = Dt>> Transformer for Option<T> {
    type DataType = Option<Dt>;

    open spec fn obeys_transform_spec() -> bool {
        T::obeys_transform_spec()
    }

    open spec fn transformed(&self) -> Option<Dt> {
        match self {
            Some(value) => Some(value.transformed()),
            None => None,
        }
    }

    open spec fn reverted(value: Option<Dt>) -> Self {
        match value {
            Some(data) => Some(T::reverted(data)),
            None => None,
        }
    }

    fn transform(&self) -> (r: Option<Dt>) {
        match self {
            Some(value) => Some(value.transform()),
            None => None,
        }
    }

    fn revert(value: &Option<Dt>) -> (r: Self) {
        match value {
            Some(data) => Some(T::revert(data)),
            None => None,
        }
    }
}

/// Primitive values are their own stored form: every value comes back
/// unchanged, and every stored value is the form of the value it gives.
pub proof fn lemma_primitive_round_trips()
    ensures
        forall|x: u8| #[trigger] round_trips(x) && x.transformed() == x,
        forall|x: u16| #[trigger] round_trips(x) && x.transformed() == x,
        forall|x: u32| #[trigger] round_trips(x) && x.transformed() == x,
        forall|x: u64| #[trigger] round_trips(x) && x.transformed() == x,
        forall|x: u128| #[trigger] round_trips(x) && x.transformed() == x,
        forall|x: i8| #[trigger] round_trips(x) && x.transformed() == x,
        forall|x: i16| #[trigger] round_trips(x) && x.transformed() == x,
        forall|x: i32| #[trigger] round_trips(x) && x.transformed() == x,
        forall|x: i64| #[trigger] round_trips(x) && x.transformed() == x,
        forall|x: i128| #[trigger] round_trips(x) && x.transformed() == x,
        forall|x: bool| #[trigger] round_trips(x) && x.transformed() == x,
{
}

/// An identifier is stored as its number: the stored form of every
/// identifier is the number it carries, every number reads back as the
/// identifier that carries it, and so every identifier comes back unchanged.
pub proof fn lemma_id_round_trips()
    ensures
        forall|x: ApplicationId| #[trigger] round_trips(x) && x.transformed() == x.0,
        forall|v: u64| #[trigger] ApplicationId::reverted(v) == ApplicationId(v),
        forall|v: u64| #[trigger] ApplicationId::reverted(v).transformed() == v,
        forall|x: AttachmentId| #[trigger] round_trips(x) && x.transformed() == x.0,
        forall|v: u64| #[trigger] AttachmentId::reverted(v) == AttachmentId(v),
        forall|v: u64| #[trigger] AttachmentId::reverted(v).transformed() == v,
        forall|x: AuditLogEntryId| #[trigger] round_trips(x) && x.transformed() == x.0,
        forall|v: u64| #[trigger] AuditLogEntryId::reverted(v) == AuditLogEntryId(v),
        forall|v: u64| #[trigger] AuditLogEntryId::reverted(v).transformed() == v,
        forall|x: ChannelId| #[trigger] round_trips(x) && x.transformed() == x.0,
        forall|v: u64| #[trigger] ChannelId::reverted(v) == ChannelId(v),
        forall|v: u64| #[trigger] ChannelId::reverted(v).transformed() == v,
        forall|x: CommandId| #[trigger] round_trips(x) && x.transformed() == x.0,
        forall|v: u64| #[trigger] CommandId::reverted(v) == CommandId(v),
        forall|v: u64| #[trigger] CommandId::reverted(v).transformed() == v,
        forall|x: EmojiId| #[trigger] round_trips(x) && x.transformed() == x.0,
        forall|v: u64| #[trigger] EmojiId::reverted(v) == EmojiId(v),
        forall|v: u64| #[trigger] EmojiId::reverted(v).transformed() == v,
        forall|x: GenericId| #[trigger] round_trips(x) && x.transformed() == x.0,
        forall|v: u64| #[trigger] GenericId::reverted(v) == GenericId(v),
        forall|v: u64| #[trigger] GenericId::reverted(v).transformed() == v,
        forall|x: GuildId| #[trigger] round_trips(x) && x.transformed() == x.0,
        forall|v: u64| #[trigger] GuildId::reverted(v) == GuildId(v),
        forall|v: u64| #[trigger] GuildId::reverted(v).transformed() == v,
        forall|x: IntegrationId| #[trigger] round_trips(x) && x.transformed() == x.0,
        forall|v: u64| #[trigger] IntegrationId::reverted(v) == IntegrationId(v),
        forall|v: u64| #[trigger] IntegrationId::reverted(v).transformed() == v,
        forall|x: InteractionId| #[trigger] round_trips(x) && x.transformed() == x.0,
        forall|v: u64| #[trigger] InteractionId::reverted(v) == InteractionId(v),
        forall|v: u64| #[trigger] InteractionId::reverted(v).transformed() == v,
        forall|x: MessageId| #[trigger] round_trips(x) && x.transformed() == x.0,
        forall|v: u64| #[trigger] MessageId::reverted(v) == MessageId(v),
        forall|v: u64| #[trigger] MessageId::reverted(v).transformed() == v,
        forall|x: RoleId| #[trigger] round_trips(x) && x.transformed() == x.0,
        forall|v: u64| #[trigger] RoleId::reverted(v) == RoleId(v),
        forall|v: u64| #[trigger] RoleId::reverted(v).transformed() == v,
        forall|x: StageId| #[trigger] round_trips(x) && x.transformed() == x.0,
        forall|v: u64| #[trigger] StageId::reverted(v) == StageId(v),
        forall|v: u64| #[trigger] StageId::reverted(v).transformed() == v,
        forall|x: UserId| #[trigger] round_trips(x) && x.transformed() == x.0,
        forall|v: u64| #[trigger] UserId::reverted(v) == UserId(v),
        forall|v: u64| #[trigger] UserId::reverted(v).transformed() == v,
        forall|x: WebhookId| #[trigger] round_trips(x) && x.transformed() == x.0,
        forall|v: u64| #[trigger] WebhookId::reverted(v) == WebhookId(v),
        forall|v: u64| #[trigger] WebhookId::reverted(v).transformed() == v,
{
}

/// A string is stored as itself and comes back unchanged from its stored
/// form.
pub proof fn lemma_string_round_trips(s: String)
    ensures
        round_trips(s),
        s.transformed() == s,
        String::reverted(s) == s,
{
}

/// A `usize` or an `isize` comes back unchanged from its 64-bit form, and a
/// 64-bit value within the range of the pointer-sized type is the stored
/// form of the value it gives.
pub proof fn lemma_pointer_sized_round_trips(u: usize, i: isize, wide: u64, wide_signed: i64)
    ensures
        round_trips(u),
        round_trips(i),
        u.transformed() == u as u64,
        i.transformed() == i as i64,
        wide <= usize::MAX ==> usize::reverted(wide).transformed() == wide,
        isize::MIN <= wide_signed <= isize::MAX ==> isize::reverted(wide_signed).transformed()
            == wide_signed,
{
}

/// An option comes back unchanged from its stored form when the value it
/// holds, if any, does.
pub proof fn lemma_option_round_trips<T: Transformer>(value: Option<T>)
    requires
        T::obeys_transform_spec(),
        value matches Some(v) ==> round_trips(v),
    ensures
        round_trips(value),
        value is None <==> value.transformed() is None,
        value matches Some(v) ==> value.transformed() == Some(v.transformed()),
{
}

} // verus!
