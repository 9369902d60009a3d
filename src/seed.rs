use vstd::prelude::*;

verus! {

#[verifier::external_type_specification]
#[verifier::external_body]
pub struct ExMnemonicError(bip39::Error);

/// The BIP-39 seed of a valid mnemonic phrase with an empty passphrase:
/// PBKDF2 over the phrase's words.
pub uninterp spec fn seed_of(phrase: Seq<char>) -> Seq<u8>;

/// Whether the phrase is a valid mnemonic: known words of one wordlist, a
/// supported word count and a matching checksum.
pub uninterp spec fn is_valid_mnemonic(phrase: Seq<char>) -> bool;

/// Why a node session cannot be given a seed.
#[derive(PartialEq, Eq, Structural, Debug, Clone, Copy)]
pub enum SeedError {
    /// The phrase is not a valid mnemonic.
    InvalidMnemonic,
}

/// Relies on bip39's `FromStr` for `Mnemonic`, which parses a phrase and
/// succeeds exactly on valid mnemonics, and on `Mnemonic::to_seed` with an
/// empty passphrase, which derives the seed from the parsed words alone.
#[verifier::external_body]
fn mnemonic_seed(phrase: &str) -> (r: Result<[u8; 64], bip39::Error>)
    ensures
        r is Ok <==> is_valid_mnemonic(phrase@),
        r matches Ok(seed) ==> seed@ == seed_of(phrase@),
{
    match <bip39::Mnemonic as std::str::FromStr>::from_str(phrase) {
        Ok(m) => Ok(m.to_seed("")),
        Err(e) => Err(e),
    }
}

/// The 64-byte seed of a node session, derived from a mnemonic phrase with an
/// empty passphrase; an error exactly when the phrase is not a valid mnemonic.
pub fn seed_from_mnemonic(phrase: &str) -> (r: Result<Vec<u8>, SeedError>)
    ensures
        r is Ok <==> is_valid_mnemonic(phrase@),
        r matches Ok(seed) ==> seed@ == seed_of(phrase@) && seed@.len() == 64,
        r matches Err(e) ==> e == SeedError::InvalidMnemonic,
{
    match mnemonic_seed(phrase) {
        Ok(bytes) => {
            let mut seed: Vec<u8> = Vec::new();
            let mut i: usize = 0;
            while i < 64
                invariant
                    i <= 64,
                    seed@ == bytes@.subrange(0, i as int),
                decreases 64 - i,
            {
                seed.push(bytes[i]);
                i = i + 1;
                assert(seed@ =~= bytes@.subrange(0, i as int));
            }
            assert(seed@ =~= bytes@);
            Ok(seed)
        },
        Err(_) => Err(SeedError::InvalidMnemonic),
    }
}

} // verus!
