use paxos_core::paxos_command::PaxosCommand;

#[test]
fn commands_read_as_in_the_logs() {
    assert_eq!(PaxosCommand::NOOP.to_string(), "NOOP");
    assert_eq!(PaxosCommand::STOP.to_string(), "STOP");
    assert_eq!(PaxosCommand::BLANK.to_string(), "BLANK");
    assert_eq!(PaxosCommand::GET { key: "alpha".to_string() }.to_string(), "GET alpha");
    assert_eq!(
        PaxosCommand::PUT { key: "alpha".to_string(), version: 3, value: 42 }.to_string(),
        "PUT alpha val42 v3"
    );
    assert_eq!(
        PaxosCommand::ADD { key: "beta".to_string(), version: 10, value: 0 }.to_string(),
        "ADD beta val0 v10"
    );
    assert_eq!(
        PaxosCommand::EnactDecree { author: "Solon".to_string(), law: "no debt".to_string() }
            .to_string(),
        "Enact Decree by Solon: 'no debt'"
    );
    assert_eq!(
        PaxosCommand::Ostracize { citizen: "Aristides".to_string() }.to_string(),
        "Ostracize Aristides"
    );
    assert_eq!(
        PaxosCommand::AppointArchon { name: "Cleon".to_string(), term_length_years: 1 }.to_string(),
        "Appoint Archon Cleon for 1 years"
    );
    assert_eq!(
        PaxosCommand::BuildAcropolis { stones_required: 1200, architect: "Ictinus".to_string() }
            .to_string(),
        "Build Acropolis (1200 stones) with Ictinus"
    );
}

#[test]
fn client_requests_name_their_client_and_request() {
    let client = 0x0011_2233_4455_6677_8899_aabb_ccdd_eeffu128;
    let cmd = PaxosCommand::GET { key: "alpha".to_string() }.with_client(client, 7);
    assert_eq!(
        cmd.to_string(),
        "GET alpha [client=00112233-4455-6677-8899-aabbccddeeff req=7]"
    );
    assert_eq!(cmd.client_id(), client);
    assert_eq!(cmd.request_id(), 7);
    assert_eq!(cmd.clone().with_client(5, 9), cmd);
}
