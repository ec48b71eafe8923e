//! The contract's one persisted record and the store that holds it.
use crate::error::ContractError;
use vstd::prelude::*;

verus! {

/// Who may change the configuration and withdraw, which token is issued, and
/// how many token units one native unit brings.
#[derive(Clone, Debug, PartialEq, Eq)]
pub struct Config {
    pub owner: String,
    pub token_address: String,
    pub cr: u32,
}

impl Config {
    /// A field-by-field copy.
    pub fn copied(&self) -> (r: Config)
        ensures
            r == *self,
    {
        Config { owner: self.owner.clone(), token_address: self.token_address.clone(), cr: self.cr }
    }
}

/// The configuration record, absent until instantiation writes it.
#[derive(Clone, Debug, PartialEq, Eq)]
pub struct ConfigStore {
    pub config: Option<Config>,
}

/// The stored configuration, or `NotInitialized`.
pub open spec fn loaded(store: ConfigStore) -> Result<Config, ContractError> {
    match store.config {
        Some(c) => Ok(c),
        None => Err(ContractError::NotInitialized),
    }
}

/// The configuration that an update by `sender` leaves, or why it is refused:
/// only the stored owner may replace all three fields.
pub open spec fn updated(
    store: ConfigStore,
    sender: String,
    new_owner: String,
    token_address: String,
    cr: u32,
) -> Result<Config, ContractError> {
    match store.config {
        None => Err(ContractError::NotInitialized),
        Some(c) => if sender@ != c.owner@ {
            Err(ContractError::Unauthorized)
        } else {
            Ok(Config { owner: new_owner, token_address, cr })
        },
    }
}

impl ConfigStore {
    /// A store that holds no configuration yet.
    pub fn new() -> (r: ConfigStore)
        ensures
            r.config is None,
    {
        ConfigStore { config: None }
    }

    /// The stored configuration.
    pub fn load(&self) -> (r: Result<Config, ContractError>)
        ensures
            r == loaded(*self),
    {
        match &self.config {
            Some(c) => Ok(c.copied()),
            None => Err(ContractError::NotInitialized),
        }
    }

    /// Stores `config` in place of what was there.
    pub fn save(&mut self, config: Config)
        ensures
            final(self).config == Some(config),
    {
        self.config = Some(config);
    }

    /// Replaces owner, token address and ratio at once, where `sender` is the
    /// stored owner; otherwise the store is left as it was.
    pub fn update(&mut self, sender: &String, new_owner: String, token_address: String, cr: u32) -> (r: Result<Config, ContractError>)
        ensures
            r == updated(*old(self), *sender, new_owner, token_address, cr),
            r matches Ok(c) ==> final(self).config == Some(c),
            r is Err ==> *final(self) == *old(self),
    {
        let current = self.load()?;
        if !(*sender == current.owner) {
            return Err(ContractError::Unauthorized);
        }
        let next = Config { owner: new_owner, token_address, cr };
        self.save(next.copied());
        Ok(next)
    }
}

} // verus!
