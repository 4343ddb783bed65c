//! The data the custody service returns about wallet addresses, and the
//! selection logic that picks the entry belonging to a configured wallet.
//!
//! The HTTP client that fetches these values is I/O and lives outside this
//! library; it hands the response in and receives the selected entry back.

use vstd::prelude::*;

verus! {

use crate::config::Wallet;

/// One address entry of the custody service's address listing.
#[derive(Debug, PartialEq, Eq)]
pub struct Addresses {
    pub id: String,
    pub wallet_id: String,
    pub address_path: String,
    pub address: String,
    pub label: String,
    pub signature: String,
}

impl Clone for Addresses {
    /// Clones preserve every field exactly.
    fn clone(&self) -> (res: Self)
        ensures
            res == *self,
    {
        Addresses {
            id: self.id.clone(),
            wallet_id: self.wallet_id.clone(),
            address_path: self.address_path.clone(),
            address: self.address.clone(),
            label: self.label.clone(),
            signature: self.signature.clone(),
        }
    }
}

/// The error an address lookup reports.
#[derive(Debug, Clone, Copy, PartialEq, Eq)]
pub enum TaurusError {
    NoMatchingAddresses,
}

impl TaurusError {
    /// The human-readable description of the error.
    pub fn message(&self) -> (r: &'static str)
        ensures
            r@ == "no matching addresses"@,
    {
        "no matching addresses"
    }
}

/// The first entry in `s` whose address is `address`, if any.
pub open spec fn first_address_match(s: Seq<Addresses>, address: Seq<char>) -> Option<Addresses>
    decreases s.len(),
{
    if s.len() == 0 {
        None
    } else if s[0].address@ == address {
        Some(s[0])
    } else {
        first_address_match(s.drop_first(), address)
    }
}

/// Picks from an address listing the first entry whose address equals the
/// wallet's address: a copy of that entry when the listing holds one, and the
/// no-matching-addresses error exactly when the listing is absent or holds
/// none.
pub fn select_wallet_address(result: &Option<Vec<Addresses>>, wallet: &Wallet) -> (r: Result<
    Addresses,
    TaurusError,
>)
    ensures
        match r {
            Ok(a) => {
                &&& result matches Some(list)
                &&& first_address_match(list@, wallet.address@) == Some(a)
            },
            Err(e) => {
                &&& match result {
                    Some(list) => first_address_match(list@, wallet.address@) is None,
                    None => true,
                }
                &&& e == TaurusError::NoMatchingAddresses
            },
        },
{
    match result {
        None => Err(TaurusError::NoMatchingAddresses),
        Some(list) => {
            let n = list.len();
            let mut i: usize = 0;
            proof {
                assert(list@.skip(0) =~= list@);
            }
            while i < n
                invariant
                    i <= n,
                    n == list@.len(),
                    *result matches Some(v) && v == *list,
                    first_address_match(list@, wallet.address@) == first_address_match(
                        list@.skip(i as int),
                        wallet.address@,
                    ),
                decreases n - i,
            {
                let ghost rest = list@.skip(i as int);
                if list[i].address == wallet.address {
                    proof {
                        assert(first_address_match(rest, wallet.address@) == Some(
                            list@[i as int],
                        ));
                    }
                    return Ok(list[i].clone());
                }
                proof {
                    assert(rest.drop_first() =~= list@.skip(i + 1));
                }
                i += 1;
            }
            Err(TaurusError::NoMatchingAddresses)
        },
    }
}

} // verus!
