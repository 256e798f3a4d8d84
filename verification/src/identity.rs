use vstd::prelude::*;

verus! {

/// What the platform's application-info endpoint reports: the application's
/// own identifier and the identifier of its owner. The caller performs the
/// one network request and hands the decoded fields in as plain values.
#[derive(PartialEq, Eq, Structural, Clone, Copy, Debug)]
pub struct AppInfo {
    pub app_id: u64,
    pub owner_id: u64,
}

/// The bot's resolved identity: its own platform identifier and the owners
/// whose identity gates privileged commands. Derived once at startup,
/// immutable thereafter.
pub struct Identity {
    pub bot_id: u64,
    pub owners: Vec<u64>,
}

/// A failed identity resolution. Fatal to startup: the process logs the
/// detail and terminates; there is no retry and no fallback identity.
#[derive(Debug)]
pub struct ResolveError {
    pub detail: Vec<u8>,
}

impl Identity {
    /// Whether `id` is one of the owners.
    pub fn is_owner(&self, id: u64) -> (r: bool)
        ensures
            r == self.owners@.contains(id),
    {
        let mut i: usize = 0;
        while i < self.owners.len()
            invariant
                i <= self.owners.len(),
                forall|j: int| 0 <= j < i ==> self.owners@[j] != id,
            decreases self.owners.len() - i,
        {
            if self.owners[i] == id {
                return true;
            }
            i = i + 1;
        }
        false
    }
}

/// Turns the outcome of the one application-info request into the bot's
/// identity. A successful response yields the owner as the sole member of
/// the owner set and the application identifier as the bot's own identity.
/// Any transport or authentication failure is passed on as a fatal
/// condition carrying the failure detail, so that no later bootstrap step
/// can run on a made-up identity.
pub fn resolve(response: Result<AppInfo, Vec<u8>>) -> (r: Result<Identity, ResolveError>)
    ensures
        r is Ok <==> response is Ok,
        response matches Ok(info) ==> {
            &&& r matches Ok(id)
            &&& id.bot_id == info.app_id
            &&& id.owners@ =~= seq![info.owner_id]
        },
        response matches Err(d) ==> (r matches Err(e) && e.detail == d),
{
    match response {
        Ok(info) => {
            let mut owners: Vec<u64> = Vec::new();
            owners.push(info.owner_id);
            Ok(Identity { bot_id: info.app_id, owners })
        }
        Err(detail) => Err(ResolveError { detail }),
    }
}

} // verus!
