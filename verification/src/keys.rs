//! SSH keypair deployment for the worker containers.
//!
//! MPI needs passwordless SSH between the workers: one fresh keypair
//! is generated per run and written to every peer, the public key
//! doubling as the authorised-keys file. The keypair is random; the
//! batch built around it is verified.

use vstd::prelude::*;

use crate::command::{keys_commands, Command, CommandView};

verus! {

/// Relies on openssl's `Rsa::generate` and `private_key_to_pem` and on
/// openssh-keys' `PublicKey::from_rsa`, `set_comment` and
/// `to_key_format`: a fresh 4096-bit RSA keypair, rendered as a PEM
/// private key and an OpenSSH public-key line. The keypair is random,
/// so nothing is promised of the two strings; `None` reports a
/// generation failure.
#[verifier::external_body]
fn generate_keypair() -> (r: Option<(String, String)>) {
    let rsa = match openssl::rsa::Rsa::generate(4096) {
        Ok(rsa) => rsa,
        Err(_) => return None,
    };
    let privkey = match rsa.private_key_to_pem() {
        Ok(pem) => pem,
        Err(_) => return None,
    };
    let privkey = match String::from_utf8(privkey) {
        Ok(s) => s,
        Err(_) => return None,
    };
    let mut pubkey = openssh_keys::PublicKey::from_rsa(rsa.e().to_vec(), rsa.n().to_vec());
    pubkey.set_comment("gumpi");
    Some((privkey, pubkey.to_key_format()))
}

/// The key-deployment batch: a fresh keypair written to the
/// unprivileged user's SSH paths; the same batch goes to every peer,
/// and the public key is written both as the key file and as the
/// authorised-keys file. `None` reports that key generation failed.
pub fn deploy_keys_commands() -> (r: Option<Vec<Command>>)
    ensures
        r matches Some(cmds) ==> {
            let dv = cmds.deep_view();
            &&& dv.len() == 3
            &&& dv[0] is WriteFile && dv[0]->WriteFile_file_path == "home/mpirun/.ssh/id_rsa"@
            &&& dv[1] is WriteFile && dv[1]->WriteFile_file_path
                == "home/mpirun/.ssh/id_rsa.pub"@
            &&& dv[2] is WriteFile && dv[2]->WriteFile_file_path
                == "home/mpirun/.ssh/authorized_keys"@
            &&& dv[1]->WriteFile_content == dv[2]->WriteFile_content
        },
{
    match generate_keypair() {
        Option::None => None,
        Option::Some((privkey, pubkey)) => Some(keys_commands(privkey, pubkey)),
    }
}

} // verus!
