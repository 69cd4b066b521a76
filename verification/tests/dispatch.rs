use shard_supervisor::dispatch::{
    dispatch_sequence, CommandHandler, DispatchError, InboundCommand, MaintenanceHandler,
    ResponseToken,
};

#[test]
fn token_takes_one_response() {
    let mut t = ResponseToken::new(41);
    assert_eq!(t.command_id(), 41);
    assert!(t.sent_content().is_none());
    assert_eq!(t.send("first".to_string()), Ok(()));
    assert_eq!(t.sent_content().as_deref(), Some("first"));
}

#[test]
fn second_use_is_a_reported_error() {
    let mut t = ResponseToken::new(1);
    assert_eq!(t.send("first".to_string()), Ok(()));
    assert_eq!(t.send("second".to_string()), Err(DispatchError::AlreadyResponded));
    // The first response stands.
    assert_eq!(t.sent_content().as_deref(), Some("first"));
}

#[test]
fn maintenance_handler_answers_with_its_notice() {
    let h = MaintenanceHandler { notice: "under maintenance".to_string() };
    let cmd = InboundCommand { shard_id: 0, command_id: 9 };
    let mut t = ResponseToken::new(9);
    h.handle(&cmd, &mut t);
    assert_eq!(t.sent_content().as_deref(), Some("under maintenance"));
}

#[test]
fn dispatch_answers_each_command_once_in_order() {
    let h = MaintenanceHandler { notice: "busy".to_string() };
    let commands = vec![
        InboundCommand { shard_id: 2, command_id: 10 },
        InboundCommand { shard_id: 2, command_id: 11 },
        InboundCommand { shard_id: 2, command_id: 12 },
    ];
    let tokens = dispatch_sequence(&h, &commands);
    assert_eq!(tokens.len(), 3);
    for (k, token) in tokens.iter().enumerate() {
        assert_eq!(token.command_id(), commands[k].command_id);
        assert_eq!(token.sent_content().as_deref(), Some("busy"));
    }
}

#[test]
fn dispatch_of_nothing_is_nothing() {
    let h = MaintenanceHandler { notice: "busy".to_string() };
    let tokens = dispatch_sequence(&h, &Vec::new());
    assert!(tokens.is_empty());
}
