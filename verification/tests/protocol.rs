use serde_json::Value;
use wynobserve::hub::supported_protocol;
use wynobserve::protocol::{default_machine_role, AgentHello, MachineIdentity, PROTOCOL_VERSION, TELEMETRY_SCHEMA_VERSION};

fn hello_to_json(hello: &AgentHello) -> Value {
    let mut machine = serde_json::Map::new();
    machine.insert("machine_id".to_string(), Value::String(hello.machine.machine_id.clone()));
    machine.insert("machine_name".to_string(), Value::String(hello.machine.machine_name.clone()));
    machine.insert("role".to_string(), Value::String(hello.machine.role.clone()));
    machine.insert("os".to_string(), Value::String(hello.machine.os.clone()));
    machine.insert("architecture".to_string(), Value::String(hello.machine.architecture.clone()));
    machine.insert("agent_version".to_string(), Value::String(hello.machine.agent_version.clone()));
    let mut root = serde_json::Map::new();
    root.insert("protocol_version".to_string(), Value::from(hello.protocol_version));
    root.insert("machine".to_string(), Value::Object(machine));
    Value::Object(root)
}

fn text(v: &Value, key: &str) -> String {
    v.get(key).and_then(Value::as_str).unwrap().to_string()
}

fn hello_from_json(v: &Value) -> AgentHello {
    let machine = v.get("machine").unwrap();
    let role = machine
        .get("role")
        .and_then(Value::as_str)
        .map(str::to_string)
        .unwrap_or_else(default_machine_role);
    AgentHello {
        protocol_version: v.get("protocol_version").and_then(Value::as_u64).unwrap() as u16,
        machine: MachineIdentity {
            machine_id: text(machine, "machine_id"),
            machine_name: text(machine, "machine_name"),
            role,
            os: text(machine, "os"),
            architecture: text(machine, "architecture"),
            agent_version: text(machine, "agent_version"),
        },
    }
}

#[test]
fn agent_hello_round_trips_json() {
    let original = AgentHello::new(MachineIdentity {
        machine_id: "wyn-itpc".into(),
        machine_name: "Wyn-ITPC".into(),
        role: "workstation".into(),
        os: "linux".into(),
        architecture: "x86_64".into(),
        agent_version: "0.1.0".into(),
    });

    let json = serde_json::to_string(&hello_to_json(&original)).unwrap();

    let decoded: AgentHello = hello_from_json(&serde_json::from_str::<Value>(&json).unwrap());

    assert_eq!(decoded.protocol_version, PROTOCOL_VERSION);

    assert_eq!(decoded.machine.machine_id, "wyn-itpc");
}

#[test]
fn agent_hello_carries_this_protocol_version() {
    let hello = AgentHello::new(MachineIdentity {
        machine_id: "a".into(),
        machine_name: "A".into(),
        role: "server".into(),
        os: "linux".into(),
        architecture: "aarch64".into(),
        agent_version: "9.9.9".into(),
    });
    assert_eq!(hello.protocol_version, 2);
    assert_eq!(hello.machine.role, "server");
    assert_eq!(hello.machine.architecture, "aarch64");
}

#[test]
fn protocol_constants() {
    assert_eq!(PROTOCOL_VERSION, 2);
    assert_eq!(TELEMETRY_SCHEMA_VERSION, 1);
    assert!(supported_protocol(2));
    assert!(!supported_protocol(1));
    assert!(!supported_protocol(3));
}

#[test]
fn missing_role_defaults_to_workstation() {
    assert_eq!(default_machine_role(), "workstation");
    let json = r#"{"protocol_version":2,"machine":{"machine_id":"m","machine_name":"M","os":"linux","architecture":"x86_64","agent_version":"0.1.0"}}"#;
    let decoded = hello_from_json(&serde_json::from_str::<Value>(json).unwrap());
    assert_eq!(decoded.machine.role, "workstation");
}
