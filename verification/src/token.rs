use vstd::prelude::*;
use crate::keys::Pubkey;
use crate::error::TokenError;

verus! {

/// The CSTR mint account as the token program writes it.
#[derive(Debug, Clone, Copy)]
pub struct MintState {
    pub decimals: u8,
    pub mint_authority: Pubkey,
    pub freeze_authority: Option<Pubkey>,
    pub supply: u64,
    pub transfer_fee_bps: u16,
}

/// Sets up the mint: the signer becomes the mint authority, nothing can freeze
/// accounts, nothing is minted yet, and the decimals and transfer fee are the
/// given ones. A transfer fee above 10000 basis points is refused with
/// `InvalidFeeBps`, and the mint is then left as it was.
pub fn initialize_mint(
    mint: &mut MintState,
    authority: Pubkey,
    decimals: u8,
    transfer_fee_bps: u16,
) -> (r: Result<(), TokenError>)
    ensures
        transfer_fee_bps > 10000 ==> r == Err::<(), TokenError>(TokenError::InvalidFeeBps)
            && *final(mint) == *old(mint),
        transfer_fee_bps <= 10000 ==> r is Ok && *final(mint) == (MintState {
            decimals,
            mint_authority: authority,
            freeze_authority: None,
            supply: 0,
            transfer_fee_bps,
        }),
{
    if transfer_fee_bps > 10000 {
        return Err(TokenError::InvalidFeeBps);
    }
    mint.decimals = decimals;
    mint.mint_authority = authority;
    mint.freeze_authority = None;
    mint.supply = 0;
    mint.transfer_fee_bps = transfer_fee_bps;
    Ok(())
}

} // verus!
