use ddc_ci_daemons::backend::{BackendError, VcpReading};
use ddc_ci_daemons::service::DdcutilService;
use ddc_ci_daemons::vcp_requests::{MultiVcpQuery, MultiVcpStep, VcpWrite, WriteStep};

fn service() -> DdcutilService {
    DdcutilService { dynamic_sleep: false, output_level: 0 }
}

fn error(status: i64, message: &str) -> BackendError {
    BackendError { status, message: message.to_string() }
}

fn reading(current: u16, max: u16, text: &str) -> VcpReading {
    VcpReading { current, max, formatted: text.to_string() }
}

fn multi_query(step: MultiVcpStep) -> MultiVcpQuery {
    match step {
        MultiVcpStep::FindDisplay(q) | MultiVcpStep::OpenDisplay(q) | MultiVcpStep::ReadVcp(q) => q,
        MultiVcpStep::Reply(_) => panic!("a reply where a backend call was expected"),
    }
}

fn read_step(step: MultiVcpStep) -> MultiVcpQuery {
    match step {
        MultiVcpStep::ReadVcp(q) => q,
        _ => panic!("a read was expected"),
    }
}

#[test]
fn get_multiple_vcp_starts_with_the_lookup() {
    match service().get_multiple_vcp(3, "AP//", &[16, 18], 1) {
        MultiVcpStep::FindDisplay(q) => {
            assert_eq!(q.display_number(), 3);
            assert_eq!(q.edid_text(), "AP//");
            assert!(q.allow_edid_prefix());
            assert_eq!(q.next_code(), Some(16));
        }
        _ => panic!("GetMultipleVcp starts with the lookup"),
    }
    assert!(!multi_query(service().get_multiple_vcp(3, "", &[16], 8)).allow_edid_prefix());
}

#[test]
fn get_multiple_vcp_reads_each_code_in_order() {
    let q = multi_query(service().get_multiple_vcp(1, "", &[0x10, 0x12, 0x10], 0));
    let q = match q.after_find(Ok(())) {
        MultiVcpStep::OpenDisplay(q) => q,
        _ => panic!("after the lookup the display is opened"),
    };
    let q = read_step(q.after_open(Ok(())));
    assert_eq!(q.next_code(), Some(0x10));
    let q = read_step(q.after_read(Ok(reading(50, 100, "50"))));
    assert_eq!(q.next_code(), Some(0x12));
    let q = read_step(q.after_read(Ok(reading(75, 100, "75"))));
    assert_eq!(q.next_code(), Some(0x10));
    match q.after_read(Ok(reading(51, 100, "51"))) {
        MultiVcpStep::Reply(reply) => assert_eq!(
            reply,
            (
                vec![
                    (0x10, 50, 100, "50".to_string()),
                    (0x12, 75, 100, "75".to_string()),
                    (0x10, 51, 100, "51".to_string()),
                ],
                0,
                String::new()
            )
        ),
        _ => panic!("after the last code the reply is sent"),
    }
}

#[test]
fn get_multiple_vcp_with_no_codes_succeeds_after_opening() {
    let q = multi_query(service().get_multiple_vcp(1, "", &[], 0));
    assert_eq!(q.next_code(), None);
    let q = multi_query(q.after_find(Ok(())));
    match q.after_open(Ok(())) {
        MultiVcpStep::Reply(reply) => assert_eq!(reply, (Vec::new(), 0, String::new())),
        _ => panic!("with no codes the request ends after opening"),
    }
}

#[test]
fn get_multiple_vcp_failures() {
    let expected = (Vec::new(), -3020, "get_multiple_vcp: not found".to_string());
    let q = multi_query(service().get_multiple_vcp(1, "", &[16], 0));
    match q.after_find(Err(error(-3020, "not found"))) {
        MultiVcpStep::Reply(r) => assert_eq!(r, expected),
        _ => panic!("a failed lookup ends the request"),
    }
    let q = multi_query(service().get_multiple_vcp(1, "", &[16], 0));
    match q.after_open(Err(error(-3020, "not found"))) {
        MultiVcpStep::Reply(r) => assert_eq!(r, expected),
        _ => panic!("a failed open ends the request"),
    }
    let q = multi_query(service().get_multiple_vcp(1, "", &[16, 18], 0));
    let q = read_step(q.after_open(Ok(())));
    let q = read_step(q.after_read(Ok(reading(1, 2, "1"))));
    match q.after_read(Err(error(-3020, "not found"))) {
        MultiVcpStep::Reply(r) => assert_eq!(r, expected),
        _ => panic!("a failed read ends the request"),
    }
}

fn write_of(step: WriteStep) -> VcpWrite {
    match step {
        WriteStep::FindDisplay(w) | WriteStep::OpenDisplay(w) | WriteStep::WriteVcp(w) => w,
        WriteStep::Reply(_) => panic!("a reply where a backend call was expected"),
    }
}

#[test]
fn set_vcp_writes_after_lookup_and_open() {
    let mut s = service();
    let w = match s.set_vcp(2, "AP//", 0x10, 70, 1) {
        WriteStep::FindDisplay(w) => w,
        _ => panic!("SetVcp starts with the lookup"),
    };
    assert_eq!((w.display_number, w.edid_text.as_str(), w.allow_edid_prefix), (2, "AP//", true));
    assert_eq!((w.vcp_code, w.new_value), (0x10, 70));
    assert_eq!(w.client_context, None);
    let w = match w.after_find(Ok(())) {
        WriteStep::OpenDisplay(w) => w,
        _ => panic!("after the lookup the display is opened"),
    };
    let w = match w.after_open(Ok(())) {
        WriteStep::WriteVcp(w) => w,
        _ => panic!("after opening the value is written"),
    };
    assert_eq!(w.after_write(Ok(())), (0, String::new()));
    assert!(!s.dynamic_sleep);
}

#[test]
fn set_vcp_failures() {
    let mut s = service();
    match write_of(s.set_vcp(1, "", 16, 1, 0)).after_find(Err(error(-3020, "no display"))) {
        WriteStep::Reply(r) => assert_eq!(r, (-3020, "set_vcp: no display".to_string())),
        _ => panic!("a failed lookup ends the write"),
    }
    match write_of(s.set_vcp(1, "", 16, 1, 0)).after_open(Err(error(-3001, "busy"))) {
        WriteStep::Reply(r) => assert_eq!(r, (-3001, "set_vcp: busy".to_string())),
        _ => panic!("a failed open ends the write"),
    }
    let r = write_of(s.set_vcp(1, "", 16, 1, 0)).after_write(Err(error(-3005, "no reply")));
    assert_eq!(r, (-3005, "set_vcp: no reply".to_string()));
}

#[test]
fn set_vcp_with_context_carries_the_context() {
    let mut s = service();
    let w = write_of(s.set_vcp_with_context(1, "", 16, 40, "slider", 0));
    assert_eq!(w.client_context.as_deref(), Some("slider"));
    assert_eq!(w.new_value, 40);
    let r = w.after_write(Err(error(-1, "x")));
    assert_eq!(r, (-1, "set_vcp: x".to_string()));
}

#[test]
fn set_vcp_with_context_replies_like_set_vcp() {
    let mut s = service();
    for failing_step in 0..3 {
        let plain = write_of(s.set_vcp(4, "AP", 0x10, 9, 1));
        let with_context = write_of(s.set_vcp_with_context(4, "AP", 0x10, 9, "ctx", 1));
        let reply = |w: VcpWrite| match failing_step {
            0 => match w.after_find(Err(error(-7, "gone"))) {
                WriteStep::Reply(r) => r,
                _ => panic!("a failed lookup ends the write"),
            },
            1 => match w.after_open(Err(error(-7, "gone"))) {
                WriteStep::Reply(r) => r,
                _ => panic!("a failed open ends the write"),
            },
            _ => w.after_write(Err(error(-7, "gone"))),
        };
        assert_eq!(reply(plain), reply(with_context));
    }
    assert_eq!(
        write_of(s.set_vcp(4, "AP", 0x10, 9, 1)).after_write(Ok(())),
        write_of(s.set_vcp_with_context(4, "AP", 0x10, 9, "ctx", 1)).after_write(Ok(()))
    );
}
