//! The typed variants that tagged objects decode to, and the accessors of
//! their fields.

pub mod authorization_state;
pub mod chat_type;
pub mod invoice;
pub mod link_state;
pub mod user;
pub mod user_status;
pub mod user_type;

pub use authorization_state::TGAuthorization;
pub use authorization_state::TGAuthorizationState;
pub use authorization_state::TGAuthorizationStateWaitCode;
pub use authorization_state::TGAuthorizationStateWaitEncryptionKey;
pub use authorization_state::TGAuthorizationStateWaitPassword;
pub use chat_type::TGChatType;
pub use chat_type::TGChatTypeBasicGroup;
pub use chat_type::TGChatTypePrivate;
pub use chat_type::TGChatTypeSecret;
pub use chat_type::TGChatTypeSupergroup;
pub use invoice::TGInvoice;
pub use invoice::TGLabeledPricePart;
pub use link_state::TGLinkState;
pub use user::TGUser;
pub use user_status::TGUserStatus;
pub use user_type::TGUserType;
pub use user_type::TGUserTypeBot;
