use yingzi::config::{Config, ConfigError};

#[test]
fn valid_config_keeps_fields() {
    let c = Config::new(String::from("127.0.0.1:8080"), 9110, 9120).unwrap();
    assert_eq!(c.target_addr, "127.0.0.1:8080");
    assert_eq!(c.start_port, 9110);
    assert_eq!(c.end_port, 9120);
}

#[test]
fn empty_target_is_rejected() {
    let r = Config::new(String::new(), 9110, 9120);
    assert_eq!(r.unwrap_err(), ConfigError::EmptyTarget);
}

#[test]
fn inverted_range_is_rejected() {
    let r = Config::new(String::from("127.0.0.1:8080"), 9121, 9120);
    assert_eq!(r.unwrap_err(), ConfigError::InvalidPortRange);
}

#[test]
fn empty_target_reported_before_bad_range() {
    let r = Config::new(String::new(), 9121, 9120);
    assert_eq!(r.unwrap_err(), ConfigError::EmptyTarget);
}

#[test]
fn bind_plan_covers_range_once_each() {
    let c = Config::new(String::from("127.0.0.1:8080"), 9110, 9120).unwrap();
    let ports = c.ports();
    assert_eq!(ports.len(), 11);
    for (i, p) in ports.iter().enumerate() {
        assert_eq!(*p, 9110 + i as u16);
    }
    let mut sorted = ports.clone();
    sorted.sort();
    sorted.dedup();
    assert_eq!(sorted.len(), 11);
}

#[test]
fn single_port_range_binds_one_port() {
    let c = Config::new(String::from("127.0.0.1:8080"), 9110, 9110).unwrap();
    assert_eq!(c.ports(), vec![9110]);
}

#[test]
fn range_reaching_largest_port() {
    let c = Config::new(String::from("h:1"), 65534, 65535).unwrap();
    assert_eq!(c.ports(), vec![65534, 65535]);
}
