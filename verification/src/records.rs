use vstd::prelude::*;

verus! {

/// The singleton configuration record that gates all minting.
///
/// `admin` is the 32-byte identity of the account that initialized the
/// system; `bump` is the discriminator byte that re-derives the signing
/// authority's address; `mint_count` is the index of the last successfully
/// completed mint (0 if none has completed yet).
#[derive(Debug)]
pub struct TokenConfig {
    pub admin: Vec<u8>,
    pub bump: u8,
    pub mint_count: u64,
}

/// One immutable audit record per successful mint, keyed by its index.
#[derive(Debug)]
pub struct MintRecord {
    pub minter: Vec<u8>,
    pub amount: u64,
    pub timestamp: i64,
    pub mint_index: u64,
}

/// Everything a mint-authorization request can fail with.
#[derive(Clone, Copy, Debug, PartialEq, Eq, Structural)]
pub enum ErrorCode {
    /// A configuration record already exists; `initialize` ran twice.
    AlreadyInitialized,
    /// No configuration record exists yet.
    NotInitialized,
    /// The claimed index is not `mint_count + 1`.
    InvalidMintIndex,
    /// An audit record already sits at the derived address.
    DuplicateRecord,
    /// The external token ledger refused the balance update.
    DelegationFailed,
    /// No discriminator byte yields a valid derived address.
    ResolutionFailed,
}

/// The parties to an `initialize` call: the caller who becomes admin.
pub struct Initialize {
    pub signer: Vec<u8>,
}

/// The parties to a `create_token_mint` call.
pub struct CreateTokenMint {
    pub signer: Vec<u8>,
}

/// The parties and environment of a `mint_token` call: the caller's
/// identity and the wall-clock reading the host captured for this request.
pub struct MintToken {
    pub signer: Vec<u8>,
    pub timestamp: i64,
}

} // verus!
