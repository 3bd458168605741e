pub mod addr;
pub mod codec;
pub mod create;
pub mod dispatch;
pub mod release;
pub mod state;

pub use codec::CreateEscrowInstruction;
pub use codec::EscrowAccount;
pub use codec::ReleaseEscrowInstruction;
pub use create::create_escrow;
pub use dispatch::process_instruction;
pub use release::release_escrow;
pub use state::AccountState;
pub use state::EscrowError;
