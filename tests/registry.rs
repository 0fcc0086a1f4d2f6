use server_registry::handle::{ListenerHandle, StopError};
use server_registry::registry::{CreateError, DeleteError, Registry};

fn bind_ok(p: u16) -> Result<(u32, String), String> {
    Ok((u32::from(p) * 10, format!("serve {}", p)))
}

fn bind_refused(p: u16) -> Result<(u32, String), String> {
    Err(format!("address in use: {}", p))
}

fn sorted(mut v: Vec<u16>) -> Vec<u16> {
    v.sort();
    v
}

#[test]
fn new_registry_is_empty() {
    let reg: Registry<u32> = Registry::new();
    assert_eq!(reg.len(), 0);
    assert!(reg.list().is_empty());
    assert!(!reg.contains(8080));
}

#[test]
fn create_echoes_port_and_hands_back_task() {
    let mut reg: Registry<u32> = Registry::new();
    let r = reg.create(3000, bind_ok);
    assert_eq!(r, Ok((3000, "serve 3000".to_string())));
    assert!(reg.contains(3000));
    assert_eq!(reg.len(), 1);
    assert_eq!(reg.list(), vec![3000]);
}

#[test]
fn create_twice_is_refused_and_keeps_one_entry() {
    let mut reg: Registry<u32> = Registry::new();
    assert!(reg.create(4000, bind_ok).is_ok());
    let second = reg.create(4000, |_p: u16| -> Result<(u32, String), String> {
        panic!("the starter must not run for a tracked port")
    });
    assert_eq!(second, Err(CreateError::PortAlreadyInUse));
    assert_eq!(reg.list(), vec![4000]);
    // the handle kept is the first one
    assert_eq!(reg.delete(4000), Ok(40000));
}

#[test]
fn delete_on_empty_registry_is_not_found() {
    let mut reg: Registry<u32> = Registry::new();
    assert_eq!(reg.delete(8080), Err(DeleteError::NotFound));
    assert_eq!(reg.len(), 0);
}

#[test]
fn create_list_delete_list() {
    let mut reg: Registry<u32> = Registry::new();
    assert!(reg.create(5000, bind_ok).is_ok());
    assert!(reg.list().contains(&5000));
    assert_eq!(reg.delete(5000), Ok(50000));
    assert!(!reg.list().contains(&5000));
}

#[test]
fn create_delete_create_after_release() {
    let mut reg: Registry<u32> = Registry::new();
    assert!(reg.create(6000, bind_ok).is_ok());
    assert!(reg.delete(6000).is_ok());
    // the old socket may not be released yet: the bind fails, the registry does not refuse
    let early = reg.create(6000, bind_refused);
    assert_eq!(early, Err(CreateError::BindFailed("address in use: 6000".to_string())));
    assert!(!reg.contains(6000));
    // a later attempt goes through
    let retry = reg.create(6000, bind_ok);
    assert_eq!(retry, Ok((6000, "serve 6000".to_string())));
    assert_eq!(reg.list(), vec![6000]);
}

#[test]
fn racing_creates_one_wins() {
    let mut reg: Registry<u32> = Registry::new();
    let first = reg.create(7000, bind_ok);
    let second = reg.create(7000, bind_ok);
    assert!(first.is_ok());
    assert_eq!(second, Err(CreateError::PortAlreadyInUse));
    assert_eq!(reg.len(), 1);
}

#[test]
fn racing_creates_after_failed_bind() {
    let mut reg: Registry<u32> = Registry::new();
    let first = reg.create(7100, bind_refused);
    let second = reg.create(7100, bind_ok);
    assert_eq!(first, Err(CreateError::BindFailed("address in use: 7100".to_string())));
    assert!(second.is_ok());
    assert_eq!(reg.list(), vec![7100]);
}

#[test]
fn distinct_ports_settle_to_created_minus_deleted() {
    let mut reg: Registry<u32> = Registry::new();
    // creates on 1..=4, delete 2 and 9 (never created), bind of 4 fails
    assert!(reg.create(1, bind_ok).is_ok());
    assert!(reg.create(2, bind_ok).is_ok());
    assert_eq!(reg.delete(9), Err(DeleteError::NotFound));
    assert!(reg.create(3, bind_ok).is_ok());
    assert!(reg.delete(2).is_ok());
    assert!(reg.create(4, bind_refused).is_err());
    assert_eq!(sorted(reg.list()), vec![1, 3]);

    // the same requests in another order end the same way
    let mut other: Registry<u32> = Registry::new();
    assert!(other.create(3, bind_ok).is_ok());
    assert!(other.create(4, bind_refused).is_err());
    assert!(other.create(2, bind_ok).is_ok());
    assert!(other.delete(2).is_ok());
    assert_eq!(other.delete(9), Err(DeleteError::NotFound));
    assert!(other.create(1, bind_ok).is_ok());
    assert_eq!(sorted(other.list()), sorted(reg.list()));
}

#[test]
fn delete_before_create_is_not_found() {
    let mut reg: Registry<u32> = Registry::new();
    assert_eq!(reg.delete(10), Err(DeleteError::NotFound));
    assert!(reg.create(10, bind_ok).is_ok());
    assert_eq!(reg.list(), vec![10]);
}

#[test]
fn deleted_port_stays_unlisted_until_created() {
    let mut reg: Registry<u32> = Registry::new();
    assert!(reg.create(8080, bind_ok).is_ok());
    assert!(reg.create(8081, bind_ok).is_ok());
    assert!(reg.delete(8080).is_ok());
    assert!(!reg.list().contains(&8080));
    assert!(reg.create(8082, bind_ok).is_ok());
    assert_eq!(reg.delete(8080), Err(DeleteError::NotFound));
    assert!(reg.create(8080, bind_refused).is_err());
    assert!(!reg.list().contains(&8080));
    assert_eq!(sorted(reg.list()), vec![8081, 8082]);
    assert!(reg.create(8080, bind_ok).is_ok());
    assert!(reg.list().contains(&8080));
}

#[test]
fn list_has_each_port_once() {
    let mut reg: Registry<u32> = Registry::new();
    for p in [0u16, 65535, 42, 80] {
        assert!(reg.create(p, bind_ok).is_ok());
    }
    assert_eq!(sorted(reg.list()), vec![0, 42, 80, 65535]);
}

#[test]
fn stop_signal_reaches_serving_loop() {
    let mut reg: Registry<ListenerHandle> = Registry::new();
    let mut kept = None;
    let r = reg.create(9000, |_p: u16| -> Result<(ListenerHandle, ()), ()> {
        let (h, rx) = ListenerHandle::new();
        kept = Some(rx);
        Ok((h, ()))
    });
    assert!(r.is_ok());
    let mut rx = kept.unwrap();
    assert_eq!(rx.try_recv(), Ok(None));
    let h = reg.delete(9000).ok().unwrap();
    assert_eq!(h.signal_stop(), Ok(()));
    assert_eq!(rx.try_recv(), Ok(Some(())));
}

#[test]
fn stop_signal_to_gone_loop_fails() {
    let (h, rx) = ListenerHandle::new();
    drop(rx);
    assert_eq!(h.signal_stop(), Err(StopError::ServingLoopGone));
}
