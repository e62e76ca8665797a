use crate::error::PayError;
use vstd::prelude::*;

verus! {

/// A contract on the ledger host: its address and code hash.
#[derive(Clone, Debug, PartialEq, Eq)]
pub struct SecretContract {
    pub address: String,
    pub contract_hash: String,
}

impl SecretContract {
    /// A copy with the same address and hash.
    pub fn duplicate(&self) -> (r: SecretContract)
        ensures
            r == *self,
    {
        SecretContract { address: self.address.clone(), contract_hash: self.contract_hash.clone() }
    }
}

/// The configuration that every operation is handed by its caller.
#[derive(Clone, Debug, PartialEq)]
pub struct Config {
    pub admin: String,
    pub fee: u128,
    pub new_admin_nomination: Option<String>,
    pub shade: SecretContract,
    pub sscrt: SecretContract,
    pub treasury_address: String,
    pub end_time_limit: u64,
}

/// Fails with `Unauthorized` exactly when `actual` is not `expected`.
pub fn authorize(actual: &String, expected: &String) -> (r: Result<(), PayError>)
    ensures
        r == (if actual@ == expected@ {
            Ok::<(), PayError>(())
        } else {
            Err(PayError::Unauthorized)
        }),
{
    if *actual == *expected {
        Ok(())
    } else {
        Err(PayError::Unauthorized)
    }
}

/// The admin names `address` as the next admin.
pub fn nominate_new_admin(config: &mut Config, sender: &String, address: String) -> (r: Result<
    (),
    PayError,
>)
    ensures
        old(config).admin@ != sender@ ==> r == Err::<(), PayError>(PayError::Unauthorized)
            && *final(config) == *old(config),
        old(config).admin@ == sender@ ==> r is Ok && *final(config) == (Config {
            new_admin_nomination: Some(address),
            ..*old(config)
        }),
{
    authorize(sender, &config.admin)?;
    config.new_admin_nomination = Some(address);
    Ok(())
}

/// The nominee takes over as admin; the nomination is cleared.
pub fn accept_new_admin_nomination(config: &mut Config, sender: &String) -> (r: Result<
    (),
    PayError,
>)
    ensures
        (old(config).new_admin_nomination matches Some(n) && n@ == sender@) ==> r is Ok
            && *final(config) == (Config {
            admin: old(config).new_admin_nomination->0,
            new_admin_nomination: None,
            ..*old(config)
        }),
        !(old(config).new_admin_nomination matches Some(n) && n@ == sender@) ==> r == Err::<
            (),
            PayError,
        >(PayError::Unauthorized) && *final(config) == *old(config),
{
    let nominee = match &config.new_admin_nomination {
        Some(n) => n.clone(),
        None => {
            return Err(PayError::Unauthorized);
        },
    };
    authorize(sender, &nominee)?;
    config.admin = nominee;
    config.new_admin_nomination = None;
    Ok(())
}

/// The admin sets the fee charged for each new request.
pub fn update_fee(config: &mut Config, sender: &String, fee: u128) -> (r: Result<(), PayError>)
    ensures
        old(config).admin@ != sender@ ==> r == Err::<(), PayError>(PayError::Unauthorized)
            && *final(config) == *old(config),
        old(config).admin@ == sender@ ==> r is Ok && *final(config) == (Config {
            fee,
            ..*old(config)
        }),
{
    authorize(sender, &config.admin)?;
    config.fee = fee;
    Ok(())
}

/// The admin sets where fees are paid to.
pub fn update_treasury_address(config: &mut Config, sender: &String, address: String) -> (r:
    Result<(), PayError>)
    ensures
        old(config).admin@ != sender@ ==> r == Err::<(), PayError>(PayError::Unauthorized)
            && *final(config) == *old(config),
        old(config).admin@ == sender@ ==> r is Ok && *final(config) == (Config {
            treasury_address: address,
            ..*old(config)
        }),
{
    authorize(sender, &config.admin)?;
    config.treasury_address = address;
    Ok(())
}

} // verus!
