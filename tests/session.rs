use copt::{
    file_format, log_text, terminate_reply, Bridge, Error, FileFormat, IntAttr, IntParam, DoubleAttr,
    DoubleParam, SolveAction, SolveSession, CALLBACK_CONTINUE, CALLBACK_STOP,
};

fn run(mut s: SolveSession, codes: &[i32]) -> (Vec<SolveAction>, SolveAction) {
    let mut seen = Vec::new();
    let mut i = 0;
    loop {
        let a = s.next_action();
        if let SolveAction::Finish(_) = a {
            return (seen, a);
        }
        seen.push(a);
        s.record(codes[i]);
        i += 1;
    }
}

#[test]
fn both_bridges_installed_and_removed() {
    let (seen, end) = run(SolveSession::new(true, true), &[0, 0, 0, 0, 0]);
    assert_eq!(
        seen,
        vec![
            SolveAction::Install(Bridge::Log),
            SolveAction::Install(Bridge::Terminate),
            SolveAction::Solve,
            SolveAction::Remove(Bridge::Log),
            SolveAction::Remove(Bridge::Terminate),
        ]
    );
    assert_eq!(end, SolveAction::Finish(Ok(())));
}

#[test]
fn failed_solve_still_removes_bridges() {
    let (seen, end) = run(SolveSession::new(true, false), &[0, 7, 0]);
    assert_eq!(
        seen,
        vec![
            SolveAction::Install(Bridge::Log),
            SolveAction::Solve,
            SolveAction::Remove(Bridge::Log),
        ]
    );
    assert_eq!(end, SolveAction::Finish(Err(Error::NativeError(7))));
}

#[test]
fn failed_install_skips_solve() {
    let (seen, end) = run(SolveSession::new(true, true), &[0, 3, 0]);
    assert_eq!(
        seen,
        vec![
            SolveAction::Install(Bridge::Log),
            SolveAction::Install(Bridge::Terminate),
            SolveAction::Remove(Bridge::Log),
        ]
    );
    assert_eq!(end, SolveAction::Finish(Err(Error::NativeError(3))));
}

#[test]
fn first_error_wins() {
    let (_, end) = run(SolveSession::new(false, true), &[0, 4, 6]);
    assert_eq!(end, SolveAction::Finish(Err(Error::NativeError(4))));
    let (_, end) = run(SolveSession::new(false, true), &[0, 0, 6]);
    assert_eq!(end, SolveAction::Finish(Err(Error::NativeError(6))));
}

#[test]
fn plain_solve() {
    let (seen, end) = run(SolveSession::new(false, false), &[0]);
    assert_eq!(seen, vec![SolveAction::Solve]);
    assert_eq!(end, SolveAction::Finish(Ok(())));
}

#[test]
fn terminate_bridge_answers() {
    let stop = terminate_reply(true);
    assert!(stop.interrupt);
    assert_eq!(stop.status, CALLBACK_STOP);
    assert_eq!(CALLBACK_STOP, 10);
    let go = terminate_reply(false);
    assert!(!go.interrupt);
    assert_eq!(go.status, CALLBACK_CONTINUE);
    assert_eq!(CALLBACK_CONTINUE, 0);
}

#[test]
fn file_format_by_suffix() {
    assert_eq!(file_format("model.mps"), Ok(FileFormat::Mps));
    assert_eq!(file_format("MODEL.MPS"), Ok(FileFormat::Mps));
    assert_eq!(file_format("dir/x.Lp"), Ok(FileFormat::Lp));
    assert_eq!(file_format("x.lp.gz"), Err(Error::UnsupportedFormat));
    assert_eq!(file_format("mps"), Err(Error::UnsupportedFormat));
    assert_eq!(file_format(""), Err(Error::UnsupportedFormat));
    assert_eq!(file_format("a\0.lp"), Err(Error::InvalidName));
    assert_eq!(file_format("é.lp"), Ok(FileFormat::Lp));
}

#[test]
fn tag_names_are_variant_labels() {
    assert_eq!(IntParam::Logging.name(), "Logging");
    assert_eq!(IntParam::LazyConstraints.name(), "LazyConstraints");
    assert_eq!(DoubleParam::TimeLimit.name(), "TimeLimit");
    assert_eq!(IntAttr::MipStatus.name(), "MipStatus");
    assert_eq!(DoubleAttr::BestGap.name(), "BestGap");
    assert_eq!(format!("{:?}", IntAttr::HasLpSol), IntAttr::HasLpSol.name());
}

#[test]
fn log_text_drops_invalid_utf8() {
    assert_eq!(log_text(b"Solving..."), Some("Solving...".to_string()));
    assert_eq!(log_text("caf\u{e9}".as_bytes()), Some("caf\u{e9}".to_string()));
    assert_eq!(log_text(&[0x41, 0xff, 0x42]), None);
    assert_eq!(log_text(&[0xc0, 0x80]), None);
    assert_eq!(log_text(b""), Some(String::new()));
}
