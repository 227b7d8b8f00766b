//! Tokens: how a raw token is produced, and how it is combined with the
//! value it stands for.

pub mod generator;
pub mod in_memory;
pub mod secret;
pub mod token;

pub use self::generator::DefaultTokenGenerator;
pub use self::in_memory::{InMemoryRawTokenGenerator, InMemoryTokenGenerator};
pub use self::secret::Sensitive;
pub use self::token::{
    Policy,
    RawTokenGenerator,
    SequenceFormat,
    Token,
    TokenError,
    TokenFormat,
    TokenGenerator,
};
