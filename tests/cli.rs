use in_memory_cache::{Cli, ClientCommand};

#[test]
fn requests_of_each_command() {
    let get = ClientCommand::Get { key: "mykey".to_string() };
    assert_eq!(get.request(), "get mykey");
    let set = ClientCommand::SetValue { key: "mykey".to_string(), value: "myvalue".to_string() };
    assert_eq!(set.request(), "set mykey myvalue");
    let del = ClientCommand::Delete { key: "mykey".to_string() };
    assert_eq!(del.request(), "delete mykey");
    assert_eq!(ClientCommand::Ping.request(), "ping");
    let cli = Cli { command: ClientCommand::Stats };
    assert_eq!(cli.command.request(), "stats");
}
