use clightning_plugin_api::{
    CmdOptionMeta, CmdOptionType, CmdOptions, ConnectEvent, DisconnectEvent, NetworkAddress,
    NoOptions,
};

#[test]
fn no_options_registers_none() {
    assert_eq!(<NoOptions as CmdOptions>::options().len(), 0);
}

#[test]
fn option_meta_holds_its_fields() {
    let meta = CmdOptionMeta {
        name: "default_name",
        option_type: CmdOptionType::String,
        default: "World",
        description: "default name",
    };
    assert_eq!(meta.name, "default_name");
    assert!(matches!(meta.option_type, CmdOptionType::String));
    assert_eq!(meta.default, "World");
}

#[test]
fn events_hold_their_peer() {
    let connect = ConnectEvent {
        id: "02abc".to_string(),
        address: NetworkAddress::Torv3 { address: "example.onion".to_string(), port: 9735 },
    };
    assert_eq!(connect.id, "02abc");
    assert!(matches!(connect.address, NetworkAddress::Torv3 { port: 9735, .. }));
    let disconnect = DisconnectEvent { id: "02abc".to_string() };
    assert_eq!(disconnect.id, "02abc");
}
