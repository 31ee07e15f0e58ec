use vstd::prelude::*;

verus! {

/// The status of a successful protocol upgrade.
pub const SWITCHING_PROTOCOLS: u16 = 101;

/// Why the client could not start its session.
#[derive(Clone, Copy, Debug, PartialEq, Eq, Structural)]
pub enum ClientError {
    /// The handshake response carried another status than the upgrade.
    UnexpectedStatus(u16),
}

/// Checks the status of the handshake response: only a protocol upgrade
/// lets the session start.
pub fn check_upgrade_status(status: u16) -> (r: Result<(), ClientError>)
    ensures
        status == SWITCHING_PROTOCOLS ==> r == Ok::<(), ClientError>(()),
        status != SWITCHING_PROTOCOLS ==> r == Err::<(), ClientError>(
            ClientError::UnexpectedStatus(status),
        ),
{
    if status == SWITCHING_PROTOCOLS {
        Ok(())
    } else {
        Err(ClientError::UnexpectedStatus(status))
    }
}

} // verus!
