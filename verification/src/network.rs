//! Network types a wallet database can be created for.

use vstd::prelude::*;

verus! {

/// The kind of Zcash network a wallet database belongs to.
#[derive(Clone, Copy, Debug, PartialEq, Eq, Structural)]
pub enum NetworkType {
    /// Zcash Mainnet.
    Main,
    /// Zcash Testnet.
    Test,
    /// Private integration / regression testing.
    Regtest,
}

/// The name under which a network type is stored and reported.
pub open spec fn network_type_name_spec(network_type: NetworkType) -> Seq<char> {
    match network_type {
        NetworkType::Main => "main"@,
        NetworkType::Test => "test"@,
        NetworkType::Regtest => "regtest"@,
    }
}

/// Returns the name of a network type, as used in configuration files and
/// error messages.
pub fn type_to_str(network_type: &NetworkType) -> (name: &'static str)
    ensures
        name@ == network_type_name_spec(*network_type),
{
    match network_type {
        NetworkType::Main => "main",
        NetworkType::Test => "test",
        NetworkType::Regtest => "regtest",
    }
}

/// Reads a network type back from its name; `None` for any other text.
pub fn network_type_from_name(name: &str) -> (network_type: Option<NetworkType>)
    ensures
        network_type matches Some(n) ==> network_type_name_spec(n) == name@,
        network_type is None ==> forall|n: NetworkType| network_type_name_spec(n) != name@,
{
    let name = name.to_owned();
    if name == "main".to_owned() {
        Some(NetworkType::Main)
    } else if name == "test".to_owned() {
        Some(NetworkType::Test)
    } else if name == "regtest".to_owned() {
        Some(NetworkType::Regtest)
    } else {
        None
    }
}

/// Naming a network type and reading the name back gives the same type.
pub proof fn lemma_network_names_round_trip(network_type: NetworkType, other: NetworkType)
    ensures
        network_type_name_spec(network_type) == network_type_name_spec(other) ==> network_type == other,
{
    reveal_strlit("main");
    reveal_strlit("test");
    reveal_strlit("regtest");
    if network_type_name_spec(network_type) == network_type_name_spec(other) {
        let name = network_type_name_spec(network_type);
        assert(name.len() == network_type_name_spec(other).len());
        assert(name[0] == network_type_name_spec(other)[0]);
    }
}

} // verus!
