use subscription_renewal::agent_registry::{AgentRegistry, Error, Scope};
use subscription_renewal::logging::SubscriptionLoggingContract;
use subscription_renewal::records::LogEvent;
use subscription_renewal::types::{Address, Env};

fn addr(b: u8) -> Address {
    Address::from_key([b; 32])
}

#[test]
fn test_logging() {
    let env = Env::new(0, 0);
    let mut client = SubscriptionLoggingContract::new();
    let sub_id = 123;
    client.record_log(&env, sub_id, LogEvent::Renewal, String::from("Success"));
    client.record_log(&env, sub_id, LogEvent::Failure, String::from("Low balance"));
    let logs = client.get_logs(sub_id);
    assert_eq!(logs.len(), 2);
    assert_eq!(logs[0].event, LogEvent::Renewal);
    assert_eq!(logs[1].event, LogEvent::Failure);
}

#[test]
fn logs_are_kept_per_subscription_with_time() {
    let mut env = Env::new(0, 50);
    let mut client = SubscriptionLoggingContract::new();
    client.record_log(&env, 1, LogEvent::Reminder, String::from("a"));
    env.timestamp = 60;
    client.record_log(&env, 2, LogEvent::Cancellation, String::from("b"));
    let one = client.get_logs(1);
    assert_eq!(one.len(), 1);
    assert_eq!((one[0].sub_id, one[0].timestamp, one[0].data.as_str()), (1, 50, "a"));
    let two = client.get_logs(2);
    assert_eq!((two[0].event, two[0].timestamp), (LogEvent::Cancellation, 60));
    assert!(client.get_logs(3).is_empty());
}

fn admin_env() -> Env {
    let mut env = Env::new(0, 0);
    env.authorize(addr(1));
    env
}

#[test]
fn agent_registry_scopes() {
    let env = admin_env();
    let mut reg = AgentRegistry::new();
    let agent = addr(7);
    assert_eq!(reg.register(&env, agent), Err(Error::NotInitialized));
    reg.init(&env, addr(1)).unwrap();
    assert_eq!(reg.init(&env, addr(2)), Err(Error::AlreadyInitialized));
    assert!(!reg.is_authorized(agent));
    assert_eq!(reg.require_authorized(agent), Err(Error::Unauthorized));
    assert_eq!(reg.update_scopes(&env, agent, 1), Err(Error::Unauthorized));

    reg.register(&env, agent).unwrap();
    assert!(reg.is_authorized(agent));
    assert_eq!(reg.require_authorized(agent), Ok(()));
    assert!(!reg.has_scope(agent, Scope::Renewals));

    reg.update_scopes(&env, agent, 1 | 4).unwrap();
    assert!(reg.has_scope(agent, Scope::Renewals));
    assert!(!reg.has_scope(agent, Scope::GiftCards));
    assert!(reg.has_scope(agent, Scope::Approvals));

    let mut agent_env = Env::new(0, 0);
    agent_env.authorize(agent);
    assert_eq!(reg.require_scope(&agent_env, agent, Scope::Renewals), Ok(()));
    assert_eq!(reg.require_scope(&agent_env, agent, Scope::GiftCards), Err(Error::InvalidScope));
    assert_eq!(reg.require_scope(&env, agent, Scope::Renewals), Err(Error::Unauthorized));

    reg.revoke_agent(&env, agent).unwrap();
    assert!(!reg.is_authorized(agent));
    assert!(!reg.has_scope(agent, Scope::Renewals));
}

#[test]
fn agent_registry_admin_only() {
    let env = admin_env();
    let mut reg = AgentRegistry::new();
    reg.init(&env, addr(1)).unwrap();
    let stranger = Env::new(0, 0);
    assert_eq!(reg.register(&stranger, addr(7)), Err(Error::Unauthorized));
    assert_eq!(reg.revoke_agent(&stranger, addr(7)), Err(Error::Unauthorized));
    reg.register(&env, addr(7)).unwrap();
    reg.register(&env, addr(8)).unwrap();
    reg.update_scopes(&env, addr(8), 2).unwrap();
    reg.register(&env, addr(8)).unwrap();
    assert!(!reg.has_scope(addr(8), Scope::GiftCards));
    reg.revoke_agent(&env, addr(7)).unwrap();
    assert!(reg.is_authorized(addr(8)));
    assert_eq!(Scope::GiftCards.bit(), 2);
}
