//! The persistence layer's value types and the small integer codes they
//! are stored under. The database work itself stays outside the library;
//! these types and their code conversions are what the rest of the service
//! reasons about.

use vstd::prelude::*;

verus! {

/// A user's stored authentication entry.
#[derive(Debug)]
pub struct Auth {
    pub auth_id: Option<i32>,
    pub auth_user_id: i32,
    pub auth_key: String,
}

impl Auth {
    /// A new entry, not yet stored, for the given user and key.
    pub fn new(user_id: i32, key: &str) -> (a: Auth)
        ensures
            a.auth_id == None::<i32>,
            a.auth_user_id == user_id,
            a.auth_key@ == key@,
    {
        Auth { auth_id: None, auth_user_id: user_id, auth_key: key.to_owned() }
    }

    /// The stored row identity, if the entry came from the database.
    pub fn id(&self) -> (r: Option<i32>)
        ensures
            r == self.auth_id,
    {
        self.auth_id
    }

    /// The authentication key.
    pub fn key(&self) -> (r: String)
        ensures
            r@ == self.auth_key@,
    {
        self.auth_key.clone()
    }
}

/// The model a message was generated with.
#[allow(non_camel_case_types)]
#[derive(Clone, Copy, PartialEq, Eq, Structural, Debug)]
pub enum MessageModel {
    GPT_3_5_Turbo,
    GPT_4,
    GPT_4_0314,
    GPT_4_32K,
    GPT_4_32K_0314,
    GPT_3_5_Turbo_0301,
    Others,
}

/// The storage code of each model.
pub open spec fn model_code(m: MessageModel) -> int {
    match m {
        MessageModel::GPT_3_5_Turbo => 0,
        MessageModel::GPT_4 => 1,
        MessageModel::GPT_4_32K => 2,
        MessageModel::GPT_4_0314 => 3,
        MessageModel::GPT_4_32K_0314 => 4,
        MessageModel::GPT_3_5_Turbo_0301 => 5,
        MessageModel::Others => 6,
    }
}

impl MessageModel {
    /// The model stored under a code.
    pub fn from_i8(value: i8) -> (m: MessageModel)
        requires
            0 <= value <= 6,
        ensures
            model_code(m) == value as int,
    {
        match value {
            0 => MessageModel::GPT_3_5_Turbo,
            1 => MessageModel::GPT_4,
            2 => MessageModel::GPT_4_32K,
            3 => MessageModel::GPT_4_0314,
            4 => MessageModel::GPT_4_32K_0314,
            5 => MessageModel::GPT_3_5_Turbo_0301,
            _ => MessageModel::Others,
        }
    }

    /// The code a model is stored under.
    pub fn as_i8(&self) -> (r: i8)
        ensures
            r as int == model_code(*self),
    {
        match *self {
            MessageModel::GPT_3_5_Turbo => 0,
            MessageModel::GPT_4 => 1,
            MessageModel::GPT_4_32K => 2,
            MessageModel::GPT_4_0314 => 3,
            MessageModel::GPT_4_32K_0314 => 4,
            MessageModel::GPT_3_5_Turbo_0301 => 5,
            MessageModel::Others => 6,
        }
    }
}

/// Who wrote a message.
#[derive(Clone, Copy, PartialEq, Eq, Structural, Debug)]
pub enum MessageSender {
    User,
    Assistant,
    System,
}

pub open spec fn sender_code(s: MessageSender) -> int {
    match s {
        MessageSender::User => 0,
        MessageSender::Assistant => 1,
        MessageSender::System => 2,
    }
}

impl MessageSender {
    pub fn from_i8(value: i8) -> (s: MessageSender)
        requires
            0 <= value <= 2,
        ensures
            sender_code(s) == value as int,
    {
        match value {
            0 => MessageSender::User,
            1 => MessageSender::Assistant,
            _ => MessageSender::System,
        }
    }

    pub fn as_i8(&self) -> (r: i8)
        ensures
            r as int == sender_code(*self),
    {
        match *self {
            MessageSender::User => 0,
            MessageSender::Assistant => 1,
            MessageSender::System => 2,
        }
    }
}

/// The kind of an attached medium.
#[derive(Clone, Copy, PartialEq, Eq, Structural, Debug)]
pub enum MediaType {
    Image,
    Audio,
    Video,
}

pub open spec fn media_code(m: MediaType) -> int {
    match m {
        MediaType::Image => 0,
        MediaType::Audio => 1,
        MediaType::Video => 2,
    }
}

impl MediaType {
    pub fn from_i8(value: i8) -> (m: MediaType)
        requires
            0 <= value <= 2,
        ensures
            media_code(m) == value as int,
    {
        match value {
            0 => MediaType::Image,
            1 => MediaType::Audio,
            _ => MediaType::Video,
        }
    }

    pub fn as_i8(&self) -> (r: i8)
        ensures
            r as int == media_code(*self),
    {
        match *self {
            MediaType::Image => 0,
            MediaType::Audio => 1,
            MediaType::Video => 2,
        }
    }
}

/// One medium attached to a message.
#[derive(Debug)]
pub struct MessageMedia {
    pub ty: MediaType,
    pub url: String,
}

/// A user's stored usage quota for one kind of work.
#[derive(Debug)]
pub struct Quota {
    pub quota_id: i32,
    pub quota_user_id: i32,
    pub quota_type: QuotaType,
    pub quota_total: i32,
    pub quota_used: i32,
}

/// The kind of work a quota covers.
#[derive(Clone, Copy, PartialEq, Eq, Structural, Debug)]
pub enum QuotaType {
    ChatCompletion,
    ImageGeneration,
    TextToSpeech,
}

pub open spec fn quota_code(q: QuotaType) -> int {
    match q {
        QuotaType::ChatCompletion => 0,
        QuotaType::ImageGeneration => 1,
        QuotaType::TextToSpeech => 2,
    }
}

impl QuotaType {
    pub fn from_i8(value: i8) -> (q: QuotaType)
        requires
            0 <= value <= 2,
        ensures
            quota_code(q) == value as int,
    {
        match value {
            0 => QuotaType::ChatCompletion,
            1 => QuotaType::ImageGeneration,
            _ => QuotaType::TextToSpeech,
        }
    }

    pub fn as_i8(&self) -> (r: i8)
        ensures
            r as int == quota_code(*self),
    {
        match *self {
            QuotaType::ChatCompletion => 0,
            QuotaType::ImageGeneration => 1,
            QuotaType::TextToSpeech => 2,
        }
    }
}

/// A user's permission level.
#[derive(Clone, Copy, PartialEq, Eq, Structural, Debug)]
pub enum UserRole {
    Normal,
    Admin,
}

pub open spec fn role_code(r: UserRole) -> int {
    match r {
        UserRole::Normal => 0,
        UserRole::Admin => 1,
    }
}

impl UserRole {
    pub fn from_i8(value: i8) -> (r: UserRole)
        requires
            0 <= value <= 1,
        ensures
            role_code(r) == value as int,
    {
        if value == 0 {
            UserRole::Normal
        } else {
            UserRole::Admin
        }
    }

    pub fn as_i8(&self) -> (r: i8)
        ensures
            r as int == role_code(*self),
    {
        match *self {
            UserRole::Normal => 0,
            UserRole::Admin => 1,
        }
    }
}

/// Whether a user may sign in.
#[derive(Clone, Copy, PartialEq, Eq, Structural, Debug)]
pub enum UserState {
    Active,
    Inactive,
}

pub open spec fn state_code(s: UserState) -> int {
    match s {
        UserState::Active => 0,
        UserState::Inactive => 1,
    }
}

impl UserState {
    pub fn from_i8(value: i8) -> (s: UserState)
        requires
            0 <= value <= 1,
        ensures
            state_code(s) == value as int,
    {
        if value == 0 {
            UserState::Active
        } else {
            UserState::Inactive
        }
    }

    pub fn as_i8(&self) -> (r: i8)
        ensures
            r as int == state_code(*self),
    {
        match *self {
            UserState::Active => 0,
            UserState::Inactive => 1,
        }
    }
}

} // verus!
