use vstd::prelude::*;
use crate::identity::AppInfo;
use crate::identity::Identity;
use crate::identity::ResolveError;
use crate::identity::resolve;
use crate::registry::Registry;
use crate::settings::Settings;
use crate::text::copy_bytes;
use crate::text::push_all;
use crate::text::spec_digits;
use crate::text::u64_to_digits;

verus! {

/// The connection states of the gateway subsystem.
#[derive(PartialEq, Eq, Structural, Clone, Copy, Debug)]
pub enum GatewayState {
    Disconnected,
    Connecting,
    Ready,
    Resuming,
}

/// What the platform or the transport reports to the gateway subsystem.
pub enum GatewayEvent {
    /// The subsystem is started with the configured token.
    Start,
    /// The handshake succeeded. The platform reports the shard slot — index
    /// and total, where it shards the connection — and the bot's display
    /// name.
    HandshakeComplete { shard: Option<(u64, u64)>, bot_name: Vec<u8> },
    /// The transport dropped and the platform allows the session to resume.
    TransportDropped,
    /// A resumption completed, with no state lost.
    ResumeComplete,
    /// An unrecoverable transport failure.
    FatalFailure,
    /// An inbound text message.
    MessageCreate { author: u64, content: Vec<u8> },
}

/// What the caller carries out after a step of the gateway state machine.
pub enum GatewayAction {
    /// Nothing.
    Idle,
    /// Log this line.
    Log { line: Vec<u8> },
    /// Route this message through the command dispatch table.
    RouteMessage { author: u64, content: Vec<u8> },
    /// Report the failure for the process-level decision to terminate.
    EscalateFailure,
}

/// The opening of the sharded ready line: `Shard `.
pub open spec fn shard_lit() -> Seq<u8> {
    seq![83u8, 104u8, 97u8, 114u8, 100u8, 32u8]
}

/// The middle of a ready line: ` is serving `.
pub open spec fn is_serving_lit() -> Seq<u8> {
    seq![32u8, 105u8, 115u8, 32u8, 115u8, 101u8, 114u8, 118u8, 105u8, 110u8, 103u8, 32u8]
}

/// The line logged when the handshake completes: the shard slot, where the
/// platform reports one, and the bot's display name.
pub open spec fn ready_log_line(shard: Option<(u64, u64)>, name: Seq<u8>) -> Seq<u8> {
    match shard {
        Some(p) => shard_lit() + spec_digits(p.0 as nat) + seq![47u8] + spec_digits(p.1 as nat)
            + is_serving_lit() + name,
        None => seq![66u8, 111u8, 116u8] + is_serving_lit() + name,
    }
}

/// The line logged when a session resumption completes: `Client resumed`.
pub open spec fn resumed_lit() -> Seq<u8> {
    seq![67u8, 108u8, 105u8, 101u8, 110u8, 116u8, 32u8, 114u8, 101u8, 115u8, 117u8, 109u8, 101u8,
        100u8]
}

/// Renders the ready line.
pub fn render_ready_line(shard: Option<(u64, u64)>, name: &Vec<u8>) -> (r: Vec<u8>)
    ensures
        r@ == ready_log_line(shard, name@),
{
    let mut r: Vec<u8> = Vec::new();
    match shard {
        Some((index, total)) => {
            r.push(83);
            r.push(104);
            r.push(97);
            r.push(114);
            r.push(100);
            r.push(32);
            proof {
                assert(r@ =~= shard_lit());
            }
            let d1 = u64_to_digits(index);
            push_all(&mut r, &d1);
            r.push(47);
            let d2 = u64_to_digits(total);
            push_all(&mut r, &d2);
            let ghost head = r@;
            r.push(32);
            r.push(105);
            r.push(115);
            r.push(32);
            r.push(115);
            r.push(101);
            r.push(114);
            r.push(118);
            r.push(105);
            r.push(110);
            r.push(103);
            r.push(32);
            proof {
                assert(r@ =~= head + is_serving_lit());
            }
            push_all(&mut r, name);
            proof {
                assert(r@ =~= ready_log_line(shard, name@));
            }
        },
        None => {
            r.push(66);
            r.push(111);
            r.push(116);
            let ghost head = r@;
            r.push(32);
            r.push(105);
            r.push(115);
            r.push(32);
            r.push(115);
            r.push(101);
            r.push(114);
            r.push(118);
            r.push(105);
            r.push(110);
            r.push(103);
            r.push(32);
            proof {
                assert(head =~= seq![66u8, 111u8, 116u8]);
                assert(r@ =~= head + is_serving_lit());
            }
            push_all(&mut r, name);
            proof {
                assert(r@ =~= ready_log_line(shard, name@));
            }
        },
    }
    r
}

/// The line for the resumed lifecycle event.
pub fn render_resumed_line() -> (r: Vec<u8>)
    ensures
        r@ == resumed_lit(),
{
    let mut r: Vec<u8> = Vec::new();
    r.push(67);
    r.push(108);
    r.push(105);
    r.push(101);
    r.push(110);
    r.push(116);
    r.push(32);
    r.push(114);
    r.push(101);
    r.push(115);
    r.push(117);
    r.push(109);
    r.push(101);
    r.push(100);
    proof {
        assert(r@ =~= resumed_lit());
    }
    r
}

/// One step of the gateway lifecycle: start leads from disconnected into
/// connecting; a completed handshake reaches ready and logs the shard slot
/// and display name; a resumable transport drop moves to resuming and a
/// completed resumption logs and returns to ready with no state loss; an
/// unrecoverable failure disconnects and escalates for the process-level
/// decision. A message is routed to dispatch exactly in the ready state;
/// every other pairing of state and event changes nothing.
pub fn gateway_step(s: GatewayState, e: GatewayEvent) -> (r: (GatewayState, GatewayAction))
    ensures
        match e {
            GatewayEvent::Start => r.1 is Idle && r.0 == (if s is Disconnected {
                GatewayState::Connecting
            } else {
                s
            }),
            GatewayEvent::HandshakeComplete { shard, bot_name } => if s is Connecting {
                &&& r.0 is Ready
                &&& r.1 matches GatewayAction::Log { line }
                &&& line@ == ready_log_line(shard, bot_name@)
            } else {
                r.0 == s && r.1 is Idle
            },
            GatewayEvent::TransportDropped => r.1 is Idle && r.0 == (if s is Ready {
                GatewayState::Resuming
            } else {
                s
            }),
            GatewayEvent::ResumeComplete => if s is Resuming {
                &&& r.0 is Ready
                &&& r.1 matches GatewayAction::Log { line }
                &&& line@ == resumed_lit()
            } else {
                r.0 == s && r.1 is Idle
            },
            GatewayEvent::FatalFailure => r.0 is Disconnected && r.1 is EscalateFailure,
            GatewayEvent::MessageCreate { author, content } => r.0 == s && if s is Ready {
                &&& r.1 matches GatewayAction::RouteMessage { author: a, content: c }
                &&& a == author
                &&& c == content
            } else {
                r.1 is Idle
            },
        },
{
    match e {
        GatewayEvent::Start => {
            if matches!(s, GatewayState::Disconnected) {
                (GatewayState::Connecting, GatewayAction::Idle)
            } else {
                (s, GatewayAction::Idle)
            }
        },
        GatewayEvent::HandshakeComplete { shard, bot_name } => {
            if matches!(s, GatewayState::Connecting) {
                let line = render_ready_line(shard, &bot_name);
                (GatewayState::Ready, GatewayAction::Log { line })
            } else {
                (s, GatewayAction::Idle)
            }
        },
        GatewayEvent::TransportDropped => {
            if matches!(s, GatewayState::Ready) {
                (GatewayState::Resuming, GatewayAction::Idle)
            } else {
                (s, GatewayAction::Idle)
            }
        },
        GatewayEvent::ResumeComplete => {
            if matches!(s, GatewayState::Resuming) {
                let line = render_resumed_line();
                (GatewayState::Ready, GatewayAction::Log { line })
            } else {
                (s, GatewayAction::Idle)
            }
        },
        GatewayEvent::FatalFailure => (GatewayState::Disconnected, GatewayAction::EscalateFailure),
        GatewayEvent::MessageCreate { author, content } => {
            if matches!(s, GatewayState::Ready) {
                (s, GatewayAction::RouteMessage { author, content })
            } else {
                (s, GatewayAction::Idle)
            }
        },
    }
}

/// The framework configuration derived at bootstrap: the command prefix,
/// the identity whose mention is the prefix alias, and the owners.
pub struct FrameworkConfig {
    pub prefix: Vec<u8>,
    pub on_mention: u64,
    pub owners: Vec<u64>,
}

/// Everything the gateway subsystem's bootstrap produces before its event
/// loop may start.
pub struct GatewayBootstrap<S, P> {
    pub framework: FrameworkConfig,
    pub identity: Identity,
    pub registry: Registry<S, P>,
}

/// The gateway subsystem's bootstrap sequence. It resolves the bot's
/// identity from the outcome of the application-info request — a failure
/// there is passed on as fatal and nothing further runs — then derives the
/// framework configuration (the configured prefix, the bot's own identity
/// as mention alias, the owners) and populates the shared registry with the
/// shard-manager handle, the pool handle and the settings, leaving it
/// complete before any event is processed.
pub fn bootstrap_gateway<S, P>(
    settings: Settings,
    app_info: Result<AppInfo, Vec<u8>>,
    shard_manager: S,
    pool: P,
) -> (r: Result<GatewayBootstrap<S, P>, ResolveError>)
    ensures
        r is Ok <==> app_info is Ok,
        app_info matches Err(d) ==> (r matches Err(e) && e.detail == d),
        app_info matches Ok(info) ==> (r matches Ok(b) && {
            &&& b.identity.bot_id == info.app_id
            &&& b.identity.owners@ == seq![info.owner_id]
            &&& b.framework.prefix@ == settings.prefix@
            &&& b.framework.on_mention == info.app_id
            &&& b.framework.owners@ == seq![info.owner_id]
            &&& b.registry.complete()
            &&& b.registry.shard_manager_val() == shard_manager
            &&& b.registry.pool_val() == pool
            &&& b.registry.settings_val() == settings
        }),
{
    let identity = match resolve(app_info) {
        Ok(id) => id,
        Err(e) => {
            return Err(e);
        },
    };
    let prefix = copy_bytes(&settings.prefix);
    let mut owners: Vec<u64> = Vec::new();
    let mut i: usize = 0;
    while i < identity.owners.len()
        invariant
            i <= identity.owners@.len(),
            owners@ == identity.owners@.take(i as int),
        decreases identity.owners@.len() - i,
    {
        let id = identity.owners[i];
        owners.push(id);
        proof {
            assert(identity.owners@.take(i + 1) =~= identity.owners@.take(i as int).push(
                identity.owners@[i as int]));
        }
        i = i + 1;
    }
    proof {
        assert(identity.owners@.take(identity.owners@.len() as int) =~= identity.owners@);
    }
    let framework = FrameworkConfig { prefix, on_mention: identity.bot_id, owners };
    let mut registry: Registry<S, P> = Registry::new();
    let _ = registry.insert_shard_manager(shard_manager);
    let _ = registry.insert_pool(pool);
    let _ = registry.insert_settings(settings);
    Ok(GatewayBootstrap { framework, identity, registry })
}

} // verus!
