//! Deterministic helpers for testing asynchronous consumers and producers: a bounded
//! test channel, scripted fault injection, and the state machines of the close,
//! send-then-close and forward combinators.
pub mod channel;
pub mod close;
pub mod forward;
pub mod protocol;
pub mod script;
pub mod test_sink;
pub mod test_stream;

pub use channel::{test_channel, ChannelCore, ChannelModel, ChannelStep};
pub use close::{Close, ConsumerCall, Progress, SendClose, SendClosePhase};
pub use forward::{Forward, ForwardAction, ForwardEvent, ForwardModel, ForwardPhase};
pub use protocol::{Offered, Polled, Status};
pub use script::{FlushOp, PollOp, Script, SendOp};
pub use test_sink::{Intercept, TestSink};
pub use test_stream::TestStream;
