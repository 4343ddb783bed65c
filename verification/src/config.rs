//! Local configuration data: the custody-service endpoint, the known chains
//! and the known wallets, with the lookups the rest of the tool uses.
//!
//! Reading and writing the configuration file is I/O and lives outside this
//! library; the types here hold the resolved values and the search logic.

use vstd::prelude::*;

verus! {

/// One chain the tool can talk to.
#[derive(Debug, PartialEq, Eq)]
pub struct Chain {
    pub prefix: String,
    pub denom: String,
    pub lcd: String,
    pub rpc: String,
    pub chain_id: String,
}

/// The custody-service endpoint and credentials.
#[derive(Debug)]
pub struct Taurus {
    pub api_url: String,
    pub mail: String,
    pub passwd: String,
}

/// One named wallet address.
#[derive(Debug, PartialEq, Eq)]
pub struct Wallet {
    pub name: String,
    pub address: String,
}

/// The resolved configuration: endpoint, chain list, wallet list and an
/// optional notification web hook.
#[derive(Debug)]
pub struct Config {
    pub taurus: Taurus,
    pub chain: Vec<Chain>,
    pub wallet: Vec<Wallet>,
    pub slack_web_hook: Option<String>,
}

/// The error a failed configuration lookup reports.
#[derive(Debug, Clone, Copy, PartialEq, Eq)]
pub enum ConfigError {
    UnknownWallet,
    UnknownChainId,
}

impl ConfigError {
    /// The human-readable description of the error.
    pub fn message(&self) -> (r: &'static str)
        ensures
            *self == ConfigError::UnknownWallet ==> r@ == "unknown wallet"@,
            *self == ConfigError::UnknownChainId ==> r@ == "unknown chain_id"@,
    {
        match self {
            ConfigError::UnknownWallet => "unknown wallet",
            ConfigError::UnknownChainId => "unknown chain_id",
        }
    }
}

impl Clone for Wallet {
    /// Clones preserve both fields exactly.
    fn clone(&self) -> (res: Self)
        ensures
            res == *self,
    {
        Wallet { name: self.name.clone(), address: self.address.clone() }
    }
}

impl Clone for Chain {
    /// Clones preserve every field exactly.
    fn clone(&self) -> (res: Self)
        ensures
            res == *self,
    {
        Chain {
            prefix: self.prefix.clone(),
            denom: self.denom.clone(),
            lcd: self.lcd.clone(),
            rpc: self.rpc.clone(),
            chain_id: self.chain_id.clone(),
        }
    }
}

/// The first wallet in `s` whose name is `name`, if any.
pub open spec fn first_wallet_match(s: Seq<Wallet>, name: Seq<char>) -> Option<Wallet>
    decreases s.len(),
{
    if s.len() == 0 {
        None
    } else if s[0].name@ == name {
        Some(s[0])
    } else {
        first_wallet_match(s.drop_first(), name)
    }
}

/// The first chain in `s` whose chain id is `chain_id`, if any.
pub open spec fn first_chain_match(s: Seq<Chain>, chain_id: Seq<char>) -> Option<Chain>
    decreases s.len(),
{
    if s.len() == 0 {
        None
    } else if s[0].chain_id@ == chain_id {
        Some(s[0])
    } else {
        first_chain_match(s.drop_first(), chain_id)
    }
}

impl Default for Config {
    /// The built-in default configuration: a placeholder custody endpoint,
    /// the two known chains and a single placeholder wallet.
    fn default() -> (c: Config)
        ensures
            c.taurus.api_url@ == "taurus.io"@,
            c.taurus.mail@ == "taurus@taurus.io"@,
            c.taurus.passwd@ == "password"@,
            c.chain@.len() == 2,
            c.chain@[0].prefix@ == "tki"@,
            c.chain@[0].denom@ == "utki"@,
            c.chain@[0].lcd@ == "https://api-challenge.blockchain.ki"@,
            c.chain@[0].rpc@ == "https://rpc-challenge.blockchain.ki"@,
            c.chain@[0].chain_id@ == "kichain-t-4"@,
            c.chain@[1].prefix@ == "xki"@,
            c.chain@[1].denom@ == "uxki"@,
            c.chain@[1].lcd@ == "https://api-mainnet.blockchain.ki"@,
            c.chain@[1].rpc@ == "https://rpc-mainnet.blockchain.ki"@,
            c.chain@[1].chain_id@ == "kichain-2"@,
            c.wallet@.len() == 1,
            c.wallet@[0].name@ == "toto"@,
            c.wallet@[0].address@ == "toto"@,
            c.slack_web_hook is None,
    {
        let mut chain: Vec<Chain> = Vec::new();
        chain.push(
            Chain {
                prefix: "tki".to_string(),
                denom: "utki".to_string(),
                lcd: "https://api-challenge.blockchain.ki".to_string(),
                rpc: "https://rpc-challenge.blockchain.ki".to_string(),
                chain_id: "kichain-t-4".to_string(),
            },
        );
        chain.push(
            Chain {
                prefix: "xki".to_string(),
                denom: "uxki".to_string(),
                lcd: "https://api-mainnet.blockchain.ki".to_string(),
                rpc: "https://rpc-mainnet.blockchain.ki".to_string(),
                chain_id: "kichain-2".to_string(),
            },
        );
        let mut wallet: Vec<Wallet> = Vec::new();
        wallet.push(Wallet { name: "toto".to_string(), address: "toto".to_string() });
        Config {
            taurus: Taurus {
                api_url: "taurus.io".to_string(),
                mail: "taurus@taurus.io".to_string(),
                passwd: "password".to_string(),
            },
            chain,
            wallet,
            slack_web_hook: None,
        }
    }
}

impl Config {
    /// Returns a copy of the first wallet with the given name, and the
    /// unknown-wallet error exactly when no wallet has that name.
    pub fn find_wallet(&self, name: &String) -> (r: Result<Wallet, ConfigError>)
        ensures
            match r {
                Ok(w) => first_wallet_match(self.wallet@, name@) == Some(w),
                Err(e) => {
                    &&& first_wallet_match(self.wallet@, name@) is None
                    &&& e == ConfigError::UnknownWallet
                },
            },
    {
        let n = self.wallet.len();
        let mut i: usize = 0;
        proof {
            assert(self.wallet@.skip(0) =~= self.wallet@);
        }
        while i < n
            invariant
                i <= n,
                n == self.wallet@.len(),
                first_wallet_match(self.wallet@, name@) == first_wallet_match(
                    self.wallet@.skip(i as int),
                    name@,
                ),
            decreases n - i,
        {
            let ghost rest = self.wallet@.skip(i as int);
            if self.wallet[i].name == *name {
                return Ok(self.wallet[i].clone());
            }
            proof {
                assert(rest.drop_first() =~= self.wallet@.skip(i + 1));
            }
            i += 1;
        }
        Err(ConfigError::UnknownWallet)
    }

    /// Returns a copy of the first chain with the given chain id, and the
    /// unknown-chain error exactly when no chain has that id.
    pub fn find_chain(&self, chain_id: &String) -> (r: Result<Chain, ConfigError>)
        ensures
            match r {
                Ok(c) => first_chain_match(self.chain@, chain_id@) == Some(c),
                Err(e) => {
                    &&& first_chain_match(self.chain@, chain_id@) is None
                    &&& e == ConfigError::UnknownChainId
                },
            },
    {
        let n = self.chain.len();
        let mut i: usize = 0;
        proof {
            assert(self.chain@.skip(0) =~= self.chain@);
        }
        while i < n
            invariant
                i <= n,
                n == self.chain@.len(),
                first_chain_match(self.chain@, chain_id@) == first_chain_match(
                    self.chain@.skip(i as int),
                    chain_id@,
                ),
            decreases n - i,
        {
            let ghost rest = self.chain@.skip(i as int);
            if self.chain[i].chain_id == *chain_id {
                return Ok(self.chain[i].clone());
            }
            proof {
                assert(rest.drop_first() =~= self.chain@.skip(i + 1));
            }
            i += 1;
        }
        Err(ConfigError::UnknownChainId)
    }
}

} // verus!
