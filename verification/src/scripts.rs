//! The descriptor engine: builds the three output-script templates (deposit,
//! unvault, CPFP) from the configured key sets and the unvault timelock, and
//! derives addresses from them. The script compilation itself is done by
//! revault_tx; the library holds descriptors and addresses in their canonical
//! string encoding, which the contracts speak about.

use vstd::prelude::*;

use std::str::FromStr;
use revault_tx::miniscript::descriptor::DescriptorPublicKey;
use revault_tx::miniscript::DescriptorTrait;

verus! {

use crate::order::{canonical_keys, key_views, lemma_canonical_order_of_permutation,
    sort_key_strings};

/// The chain network the daemon runs on.
#[derive(Debug, Clone, Copy, PartialEq, Eq, Structural)]
pub enum ChainNetwork {
    Bitcoin,
    Testnet,
    Signet,
    Regtest,
}

/// The canonical name of a network.
pub open spec fn network_name(n: ChainNetwork) -> Seq<char> {
    match n {
        ChainNetwork::Bitcoin => "bitcoin"@,
        ChainNetwork::Testnet => "testnet"@,
        ChainNetwork::Signet => "signet"@,
        ChainNetwork::Regtest => "regtest"@,
    }
}

impl ChainNetwork {
    /// The canonical name of this network, used for the network-namespaced
    /// data directory.
    pub fn name(&self) -> (r: String)
        ensures
            r@ == network_name(*self),
    {
        match *self {
            ChainNetwork::Bitcoin => "bitcoin".to_owned(),
            ChainNetwork::Testnet => "testnet".to_owned(),
            ChainNetwork::Signet => "signet".to_owned(),
            ChainNetwork::Regtest => "regtest".to_owned(),
        }
    }
}

/// An error while building a descriptor from the configured keys.
#[derive(Debug, Clone, Copy, PartialEq, Eq, Structural)]
pub struct DescriptorError;

/// An error while deriving an address: the derivation index would be hardened,
/// or the descriptor failed to produce an address.
#[derive(Debug, Clone, Copy, PartialEq, Eq, Structural)]
pub struct DerivationError;

/// The string encoding of the deposit descriptor that revault_tx builds from
/// the given stakeholder keys: an N-of-N over all stakeholders. A function of
/// the key strings alone.
pub uninterp spec fn deposit_desc_of(stakeholders: Seq<Seq<char>>) -> Seq<char>;

/// The string encoding of the unvault descriptor that revault_tx builds:
/// either all stakeholders, or threshold-of-managers plus all cosigners after
/// the relative timelock. A function of the arguments alone.
pub uninterp spec fn unvault_desc_of(
    stakeholders: Seq<Seq<char>>,
    managers: Seq<Seq<char>>,
    managers_threshold: int,
    cosigners: Seq<Seq<char>>,
    csv_value: int,
) -> Seq<char>;

/// The string encoding of the CPFP descriptor that revault_tx builds from the
/// manager keys: a 1-of-N over the managers. A function of the key strings
/// alone.
pub uninterp spec fn cpfp_desc_of(managers: Seq<Seq<char>>) -> Seq<char>;

/// Whether `DepositDescriptor::new` accepts the given key strings: the
/// outcome is a function of the key strings alone.
pub uninterp spec fn deposit_buildable(stakeholders: Seq<Seq<char>>) -> bool;

/// Whether `UnvaultDescriptor::new` accepts the given key strings, threshold
/// and timelock: the outcome is a function of the arguments alone.
pub uninterp spec fn unvault_buildable(
    stakeholders: Seq<Seq<char>>,
    managers: Seq<Seq<char>>,
    managers_threshold: int,
    cosigners: Seq<Seq<char>>,
    csv_value: int,
) -> bool;

/// Whether `CpfpDescriptor::new` accepts the given key strings: the outcome
/// is a function of the key strings alone.
pub uninterp spec fn cpfp_buildable(managers: Seq<Seq<char>>) -> bool;

/// Whether a deposit descriptor string parses back and derives addresses at
/// every non-hardened index (true of every string the builder returns).
pub uninterp spec fn deposit_desc_derivable(desc: Seq<char>) -> bool;

/// Whether an unvault descriptor string parses back and derives addresses at
/// every non-hardened index (true of every string the builder returns).
pub uninterp spec fn unvault_desc_derivable(desc: Seq<char>) -> bool;

/// The address string that descriptor derivation yields for a deposit
/// descriptor at a non-hardened index on a network. A function of the
/// arguments alone.
pub uninterp spec fn deposit_addr_of(desc: Seq<char>, network: Seq<char>, index: int) -> Seq<
    char,
>;

/// The address string that descriptor derivation yields for an unvault
/// descriptor at a non-hardened index on a network. A function of the
/// arguments alone.
pub uninterp spec fn unvault_addr_of(desc: Seq<char>, network: Seq<char>, index: int) -> Seq<
    char,
>;

/// Whether a string is a well-formed emergency address for a network: it
/// parses as an address of that network and pays to a v0 P2WSH script.
pub uninterp spec fn emergency_addr_ok(addr: Seq<char>, network: Seq<char>) -> bool;

/// Relies on `DescriptorPublicKey::from_str` and
/// `revault_tx::scripts::DepositDescriptor::new`: parses each key string and
/// compiles the N-of-N deposit policy. `new` rejects fewer than 2 or more
/// than 20 stakeholders, and its result's string form parses back and derives
/// at any non-hardened index (the crate documents the round-trip). The
/// descriptor string is a function of the key strings alone.
#[verifier::external_body]
pub(crate) fn build_deposit_descriptor(stakeholders: &Vec<String>) -> (r: Result<String, DescriptorError>)
    ensures
        r is Ok <==> deposit_buildable(key_views(stakeholders@)),
        r is Ok ==> r->Ok_0@ == deposit_desc_of(key_views(stakeholders@)),
        r is Ok ==> deposit_desc_derivable(deposit_desc_of(key_views(stakeholders@))),
        stakeholders@.len() < 2 || stakeholders@.len() > 20 ==> r is Err,
{
    let keys = stakeholders
        .iter()
        .map(|k| DescriptorPublicKey::from_str(k).map_err(|_| DescriptorError))
        .collect::<Result<Vec<_>, _>>()?;
    revault_tx::scripts::DepositDescriptor::new(keys)
        .map(|d| d.to_string())
        .map_err(|_| DescriptorError)
}

/// Relies on `DescriptorPublicKey::from_str` and
/// `revault_tx::scripts::UnvaultDescriptor::new`: parses each key string and
/// compiles the unvault policy (all stakeholders, or threshold-of-managers
/// plus all cosigners after the `csv_value` timelock). `new` rejects empty
/// stakeholder or manager sets, a cosigner count differing from the
/// stakeholder count, a threshold above the manager count, more than 20
/// stakeholders or managers, and a timelock above 0xffff; its result's string
/// form parses back and derives at any non-hardened index. The descriptor
/// string is a function of the arguments alone.
#[verifier::external_body]
pub(crate) fn build_unvault_descriptor(
    stakeholders: &Vec<String>,
    managers: &Vec<String>,
    managers_threshold: usize,
    cosigners: &Vec<String>,
    csv_value: u32,
) -> (r: Result<String, DescriptorError>)
    ensures
        r is Ok <==> unvault_buildable(
            key_views(stakeholders@),
            key_views(managers@),
            managers_threshold as int,
            key_views(cosigners@),
            csv_value as int,
        ),
        r is Ok ==> r->Ok_0@ == unvault_desc_of(
            key_views(stakeholders@),
            key_views(managers@),
            managers_threshold as int,
            key_views(cosigners@),
            csv_value as int,
        ),
        r is Ok ==> unvault_desc_derivable(
            unvault_desc_of(
                key_views(stakeholders@),
                key_views(managers@),
                managers_threshold as int,
                key_views(cosigners@),
                csv_value as int,
            ),
        ),
        stakeholders@.len() == 0 || managers@.len() == 0 ==> r is Err,
        cosigners@.len() != 0 && cosigners@.len() != stakeholders@.len() ==> r is Err,
        managers_threshold > managers@.len() ==> r is Err,
        stakeholders@.len() > 20 || managers@.len() > 20 ==> r is Err,
        csv_value > 0xffff ==> r is Err,
{
    let parse = |v: &Vec<String>| {
        v.iter()
            .map(|k| DescriptorPublicKey::from_str(k).map_err(|_| DescriptorError))
            .collect::<Result<Vec<_>, _>>()
    };
    let (stks, mans, cosigs) = (parse(stakeholders)?, parse(managers)?, parse(cosigners)?);
    revault_tx::scripts::UnvaultDescriptor::new(stks, mans, managers_threshold, cosigs, csv_value)
        .map(|d| d.to_string())
        .map_err(|_| DescriptorError)
}

/// Relies on `DescriptorPublicKey::from_str` and
/// `revault_tx::scripts::CpfpDescriptor::new`: parses each key string and
/// compiles the 1-of-N CPFP policy over the managers. `new` rejects more than
/// 20 managers. The descriptor string is a function of the key strings alone.
#[verifier::external_body]
pub(crate) fn build_cpfp_descriptor(managers: &Vec<String>) -> (r: Result<String, DescriptorError>)
    ensures
        r is Ok <==> cpfp_buildable(key_views(managers@)),
        r is Ok ==> r->Ok_0@ == cpfp_desc_of(key_views(managers@)),
        managers@.len() > 20 ==> r is Err,
{
    let keys = managers
        .iter()
        .map(|k| DescriptorPublicKey::from_str(k).map_err(|_| DescriptorError))
        .collect::<Result<Vec<_>, _>>()?;
    revault_tx::scripts::CpfpDescriptor::new(keys)
        .map(|d| d.to_string())
        .map_err(|_| DescriptorError)
}

/// Relies on `revault_tx::scripts::DepositDescriptor::from_str`, `derive` and
/// miniscript's `DescriptorTrait::address`: parses the descriptor string,
/// derives every wildcard key at the non-hardened `index` and computes the
/// P2WSH address for the network. `derive` panics on a hardened index, so the
/// index is required to be non-hardened. The address is a function of the
/// arguments alone; for a derivable descriptor string the call succeeds.
#[verifier::external_body]
pub(crate) fn derive_deposit_address(desc: &str, network: ChainNetwork, index: u32) -> (r: Result<
    String,
    DerivationError,
>)
    requires
        index < 0x8000_0000,
    ensures
        r is Ok ==> r->Ok_0@ == deposit_addr_of(desc@, network_name(network), index as int),
        deposit_desc_derivable(desc@) ==> r is Ok,
{
    let d = revault_tx::scripts::DepositDescriptor::from_str(desc).map_err(|_| DerivationError)?;
    let secp = revault_tx::bitcoin::secp256k1::Secp256k1::verification_only();
    let child = revault_tx::bitcoin::util::bip32::ChildNumber::from(index);
    d.derive(child, &secp)
        .inner()
        .address(to_bitcoin_network(network))
        .map(|a| a.to_string())
        .map_err(|_| DerivationError)
}

/// Relies on `revault_tx::scripts::UnvaultDescriptor::from_str`, `derive` and
/// miniscript's `DescriptorTrait::address`, exactly as
/// [`derive_deposit_address`] does for the deposit descriptor.
#[verifier::external_body]
pub(crate) fn derive_unvault_address(desc: &str, network: ChainNetwork, index: u32) -> (r: Result<
    String,
    DerivationError,
>)
    requires
        index < 0x8000_0000,
    ensures
        r is Ok ==> r->Ok_0@ == unvault_addr_of(desc@, network_name(network), index as int),
        unvault_desc_derivable(desc@) ==> r is Ok,
{
    let d = revault_tx::scripts::UnvaultDescriptor::from_str(desc).map_err(|_| DerivationError)?;
    let secp = revault_tx::bitcoin::secp256k1::Secp256k1::verification_only();
    let child = revault_tx::bitcoin::util::bip32::ChildNumber::from(index);
    d.derive(child, &secp)
        .inner()
        .address(to_bitcoin_network(network))
        .map(|a| a.to_string())
        .map_err(|_| DerivationError)
}

/// Relies on `bitcoin::Address::from_str` and
/// `revault_tx::scripts::EmergencyAddress::from`: the string must parse as an
/// address carrying the given network and pay to a v0 P2WSH script. The
/// outcome is a function of the arguments alone.
#[verifier::external_body]
pub(crate) fn check_emergency_address(addr: &str, network: ChainNetwork) -> (r: bool)
    ensures
        r == emergency_addr_ok(addr@, network_name(network)),
{
    match revault_tx::bitcoin::Address::from_str(addr) {
        Ok(a) => {
            a.network == to_bitcoin_network(network)
                && revault_tx::scripts::EmergencyAddress::from(a).is_ok()
        },
        Err(_) => false,
    }
}

#[verifier::external_type_specification]
#[verifier::external_body]
pub struct ExBitcoinNetwork(revault_tx::bitcoin::Network);

/// Relies on nothing beyond `bitcoin::Network`'s variants: translates the
/// library's network tag to the bitcoin crate's, one variant for one.
#[verifier::external_body]
fn to_bitcoin_network(network: ChainNetwork) -> (r: revault_tx::bitcoin::Network) {
    match network {
        ChainNetwork::Bitcoin => revault_tx::bitcoin::Network::Bitcoin,
        ChainNetwork::Testnet => revault_tx::bitcoin::Network::Testnet,
        ChainNetwork::Signet => revault_tx::bitcoin::Network::Signet,
        ChainNetwork::Regtest => revault_tx::bitcoin::Network::Regtest,
    }
}

/// Builds the three descriptors from the configured key sets and timelock.
/// Each key set is first sorted into its canonical order, so the key sets and
/// the timelock alone — not the order the configuration listed the keys in —
/// determine the descriptor bytes.
pub fn build_descriptors(
    stakeholders: &Vec<String>,
    managers: &Vec<String>,
    cosigners: &Vec<String>,
    unvault_csv: u32,
) -> (r: Result<(String, String, String), DescriptorError>)
    ensures
        r is Ok <==> deposit_buildable(canonical_keys(key_views(stakeholders@)))
            && unvault_buildable(
            canonical_keys(key_views(stakeholders@)),
            canonical_keys(key_views(managers@)),
            managers@.len() as int,
            canonical_keys(key_views(cosigners@)),
            unvault_csv as int,
        ) && cpfp_buildable(canonical_keys(key_views(managers@))),
        r is Ok ==> r->Ok_0.0@ == deposit_desc_of(canonical_keys(key_views(stakeholders@))),
        r is Ok ==> r->Ok_0.1@ == unvault_desc_of(
            canonical_keys(key_views(stakeholders@)),
            canonical_keys(key_views(managers@)),
            managers@.len() as int,
            canonical_keys(key_views(cosigners@)),
            unvault_csv as int,
        ),
        r is Ok ==> r->Ok_0.2@ == cpfp_desc_of(canonical_keys(key_views(managers@))),
        r is Ok ==> deposit_desc_derivable(
            deposit_desc_of(canonical_keys(key_views(stakeholders@))),
        ) && unvault_desc_derivable(
            unvault_desc_of(
                canonical_keys(key_views(stakeholders@)),
                canonical_keys(key_views(managers@)),
                managers@.len() as int,
                canonical_keys(key_views(cosigners@)),
                unvault_csv as int,
            ),
        ),
        stakeholders@.len() < 2 || stakeholders@.len() > 20 ==> r is Err,
        managers@.len() == 0 || managers@.len() > 20 ==> r is Err,
        cosigners@.len() != 0 && cosigners@.len() != stakeholders@.len() ==> r is Err,
        unvault_csv > 0xffff ==> r is Err,
{
    let stks = sort_key_strings(stakeholders);
    let mans = sort_key_strings(managers);
    let cosigs = sort_key_strings(cosigners);
    let deposit = match build_deposit_descriptor(&stks) {
        Ok(d) => d,
        Err(e) => {
            return Err(e);
        },
    };
    let unvault = match build_unvault_descriptor(
        &stks,
        &mans,
        mans.len(),
        &cosigs,
        unvault_csv,
    ) {
        Ok(d) => d,
        Err(e) => {
            return Err(e);
        },
    };
    let cpfp = match build_cpfp_descriptor(&mans) {
        Ok(d) => d,
        Err(e) => {
            return Err(e);
        },
    };
    Ok((deposit, unvault, cpfp))
}

/// Key sets listed in any order produce byte-identical descriptors: the
/// engine sorts each set into its canonical order before composing, so two
/// parties whose configurations hold the same keys and timelock derive the
/// same scripts whatever order they list the keys in.
pub proof fn lemma_descriptor_order_invariance(
    stakeholders_a: Seq<Seq<char>>,
    stakeholders_b: Seq<Seq<char>>,
    managers_a: Seq<Seq<char>>,
    managers_b: Seq<Seq<char>>,
    cosigners_a: Seq<Seq<char>>,
    cosigners_b: Seq<Seq<char>>,
    csv_value: int,
)
    requires
        stakeholders_a.to_multiset() == stakeholders_b.to_multiset(),
        managers_a.to_multiset() == managers_b.to_multiset(),
        cosigners_a.to_multiset() == cosigners_b.to_multiset(),
    ensures
        deposit_desc_of(canonical_keys(stakeholders_a)) == deposit_desc_of(
            canonical_keys(stakeholders_b),
        ),
        unvault_desc_of(
            canonical_keys(stakeholders_a),
            canonical_keys(managers_a),
            managers_a.len() as int,
            canonical_keys(cosigners_a),
            csv_value,
        ) == unvault_desc_of(
            canonical_keys(stakeholders_b),
            canonical_keys(managers_b),
            managers_b.len() as int,
            canonical_keys(cosigners_b),
            csv_value,
        ),
        cpfp_desc_of(canonical_keys(managers_a)) == cpfp_desc_of(canonical_keys(managers_b)),
{
    lemma_canonical_order_of_permutation(stakeholders_a, stakeholders_b);
    lemma_canonical_order_of_permutation(managers_a, managers_b);
    lemma_canonical_order_of_permutation(cosigners_a, cosigners_b);
}


} // verus!
