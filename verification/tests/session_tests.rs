use sftp_bridge::bridge::{classify_stream, finish, poll_bridged, run_script, RunOutcome, Step, Turn};
use sftp_bridge::errors::{
    ProtoError, SftpError, StreamError, StreamErrorKind, WOULD_BLOCK_CODE,
};
use sftp_bridge::session::{File, OpenFlags, OpenType, RenameFlags, Request, Sftp};
use sftp_bridge::stat::FileStat;

fn proto(code: i32, msg: &str) -> ProtoError {
    ProtoError {
        code,
        msg: String::from(msg),
    }
}

fn not_found() -> ProtoError {
    proto(2, "no such file")
}

/// Drive one bridged call whose scripted outcomes are the given
/// turns, and translate its terminal state as a caller sees it.
fn bridged_call<R>(turns: Vec<Turn<R, ProtoError>>, notifier: bool) -> Result<R, SftpError> {
    let (out, _used) = run_script(turns, notifier);
    assert!(matches!(out, RunOutcome::Finished(_)));
    finish(out)
}

#[test]
fn open_request_is_read_only() {
    let sftp = Sftp::new(true);
    let req = sftp.open(b"/f".to_vec());
    match req {
        Request::Open {
            path,
            flags,
            mode,
            open_type,
        } => {
            assert_eq!(path, b"/f".to_vec());
            assert_eq!(flags, OpenFlags::read_only());
            assert_eq!(flags.bits(), 1);
            assert_eq!(mode, 0o644);
            assert_eq!(open_type, OpenType::File);
        }
        other => panic!("expected an open request, got {:?}", other),
    }
}

#[test]
fn create_request_truncates_without_read_access() {
    let sftp = Sftp::new(true);
    let req = sftp.create(b"/f".to_vec());
    match req {
        Request::Open {
            flags, open_type, ..
        } => {
            assert!(!flags.read);
            assert!(flags.write);
            assert!(flags.create);
            assert!(flags.truncate);
            assert!(!flags.exclusive);
            assert_eq!(flags.bits(), 2 + 8 + 16);
            assert_eq!(open_type, OpenType::File);
        }
        other => panic!("expected an open request, got {:?}", other),
    }
}

#[test]
fn truncated_file_stats_at_zero_length() {
    // The remote end reports the truncated size after the create
    // convenience form opened the pre-existing file; the bridged stat
    // surfaces it untouched.
    let sftp = Sftp::new(true);
    let handle = sftp.new_handle(&OpenType::File);
    assert!(!handle.dir);
    let mut st = FileStat::empty();
    st.size = Some(0);
    let r = bridged_call(vec![Turn::Block, Turn::Ready(st)], true);
    assert_eq!(r.unwrap().size, Some(0));
}

#[test]
fn opendir_request_targets_directory_iteration() {
    let sftp = Sftp::new(true);
    let req = sftp.opendir(b"/d".to_vec());
    match req {
        Request::Open {
            flags,
            mode,
            open_type,
            ..
        } => {
            assert_eq!(flags, OpenFlags::read_only());
            assert_eq!(mode, 0);
            assert_eq!(open_type, OpenType::Dir);
        }
        other => panic!("expected an open request, got {:?}", other),
    }
}

#[test]
fn handles_share_the_sessions_notifier() {
    let with = Sftp::new(true);
    let without = Sftp::new(false);
    assert!(with.new_handle(&OpenType::File).notifier_present);
    assert!(with.new_handle(&OpenType::Dir).dir);
    assert!(!without.new_handle(&OpenType::File).notifier_present);
}

#[test]
fn mkdir_rmdir_then_stat_reports_not_found() {
    // The remote end's scripted responses: both directory operations
    // succeed, after which the directory no longer exists and the
    // stat fails with the not-found error, surfaced verbatim.
    let sftp = Sftp::new(true);
    assert_eq!(
        sftp.mkdir(b"/tmp/x".to_vec(), 0o755),
        Request::Mkdir {
            path: b"/tmp/x".to_vec(),
            mode: 0o755
        }
    );
    let mk: Result<(), SftpError> = bridged_call(vec![Turn::Block, Turn::Ready(())], true);
    assert!(mk.is_ok());
    assert_eq!(
        sftp.rmdir(b"/tmp/x".to_vec()),
        Request::Rmdir {
            path: b"/tmp/x".to_vec()
        }
    );
    let rm: Result<(), SftpError> = bridged_call(vec![Turn::Ready(())], true);
    assert!(rm.is_ok());
    assert_eq!(
        sftp.stat(b"/tmp/x".to_vec()),
        Request::Stat {
            path: b"/tmp/x".to_vec()
        }
    );
    let st: Result<FileStat, SftpError> =
        bridged_call(vec![Turn::Fail(not_found())], true);
    assert_eq!(st, Err(SftpError::Protocol(not_found())));
}

#[test]
fn rename_moves_the_entry() {
    // The remote end's scripted responses: the rename succeeds, after
    // which the source is gone and the destination exists.
    let sftp = Sftp::new(true);
    assert_eq!(
        sftp.rename(b"/a".to_vec(), b"/b".to_vec(), None),
        Request::Rename {
            src: b"/a".to_vec(),
            dst: b"/b".to_vec(),
            flags: None
        }
    );
    let mv: Result<(), SftpError> = bridged_call(vec![Turn::Block, Turn::Ready(())], true);
    assert!(mv.is_ok());
    let old: Result<FileStat, SftpError> =
        bridged_call(vec![Turn::Fail(not_found())], true);
    assert_eq!(old, Err(SftpError::Protocol(not_found())));
    let new: Result<FileStat, SftpError> =
        bridged_call(vec![Turn::Ready(FileStat::empty())], true);
    assert!(new.is_ok());
}

#[test]
fn rename_flag_bits_follow_the_protocol_encoding() {
    let all = RenameFlags {
        overwrite: true,
        atomic: true,
        native: true,
    };
    assert_eq!(all.bits(), 7);
    let overwrite_only = RenameFlags {
        overwrite: true,
        atomic: false,
        native: false,
    };
    assert_eq!(overwrite_only.bits(), 1);
}

#[test]
fn every_session_request_carries_its_arguments() {
    let sftp = Sftp::new(true);
    assert_eq!(
        sftp.lstat(b"/l".to_vec()),
        Request::Lstat {
            path: b"/l".to_vec()
        }
    );
    let st = FileStat::empty();
    assert_eq!(
        sftp.setstat(b"/f".to_vec(), st),
        Request::Setstat {
            path: b"/f".to_vec(),
            stat: st
        }
    );
    assert_eq!(
        sftp.symlink(b"/s".to_vec(), b"/t".to_vec()),
        Request::Symlink {
            path: b"/s".to_vec(),
            target: b"/t".to_vec()
        }
    );
    assert_eq!(
        sftp.readlink(b"/s".to_vec()),
        Request::Readlink {
            path: b"/s".to_vec()
        }
    );
    assert_eq!(
        sftp.realpath(b"/s/../x".to_vec()),
        Request::Realpath {
            path: b"/s/../x".to_vec()
        }
    );
    assert_eq!(
        sftp.unlink(b"/f".to_vec()),
        Request::Unlink {
            path: b"/f".to_vec()
        }
    );
    assert_eq!(sftp.shutdown(), Request::Shutdown);
}

#[test]
fn file_requests_mirror_the_handle_operations() {
    let f = File::new(true, true);
    let st = FileStat::empty();
    assert_eq!(
        f.setstat(st),
        sftp_bridge::session::FileRequest::Setstat { stat: st }
    );
    assert_eq!(f.stat(), sftp_bridge::session::FileRequest::Stat);
    assert_eq!(f.readdir(), sftp_bridge::session::FileRequest::Readdir);
    assert_eq!(f.fsync(), sftp_bridge::session::FileRequest::Fsync);
    assert_eq!(f.close(), sftp_bridge::session::FileRequest::Close);
}

#[test]
fn stream_read_at_end_of_stream_returns_zero_without_error() {
    let f = File::new(true, false);
    assert_eq!(f.poll_read(Ok(0)), Step::Done(Ok(0)));
}

#[test]
fn stream_read_on_would_block_suspends() {
    let f = File::new(true, false);
    let wb = StreamError {
        kind: StreamErrorKind::WouldBlock,
        msg: String::from("operation would block"),
    };
    assert_eq!(f.poll_read(Err(wb)), Step::Suspend);
}

#[test]
fn stream_read_resumes_with_the_bytes_after_readiness() {
    let wb = StreamError {
        kind: StreamErrorKind::WouldBlock,
        msg: String::from("operation would block"),
    };
    let turns = vec![classify_stream(Err(wb)), classify_stream(Ok(4))];
    let (out, used) = run_script(turns, true);
    assert_eq!(out, RunOutcome::Finished(Ok(4)));
    assert_eq!(used, 2);
}

#[test]
fn stream_errors_other_than_would_block_fail_the_call() {
    let f = File::new(true, false);
    let e = StreamError {
        kind: StreamErrorKind::Other,
        msg: String::from("connection lost"),
    };
    match f.poll_write(Err(e.clone())) {
        Step::Done(Err(sftp_bridge::bridge::Failure::Terminal(got))) => assert_eq!(got, e),
        other => panic!("expected the write to fail terminally, got {:?}", other),
    }
}

#[test]
fn stream_would_block_without_notifier_escalates() {
    let f = File::new(false, false);
    let wb = StreamError {
        kind: StreamErrorKind::WouldBlock,
        msg: String::from("operation would block"),
    };
    assert_eq!(
        f.poll_flush(Err(wb)),
        Step::Done(Err(sftp_bridge::bridge::Failure::NotifierAbsent))
    );
}

#[test]
fn stream_shutdown_succeeds_immediately() {
    let f = File::new(true, false);
    assert_eq!(f.poll_shutdown(), Step::Done(Ok(())));
}

#[test]
fn bridged_errors_reach_the_caller_through_the_unified_type() {
    let denied = proto(3, "permission denied");
    let r: Result<(), SftpError> = bridged_call(vec![Turn::Fail(denied.clone())], true);
    assert_eq!(r, Err(SftpError::Protocol(denied)));
    let wb = proto(WOULD_BLOCK_CODE, "operation would block");
    let s = poll_bridged::<()>(Err(wb), false);
    assert_eq!(
        s,
        Step::Done(Err(sftp_bridge::bridge::Failure::NotifierAbsent))
    );
    let none: Result<(), SftpError> = bridged_call(vec![Turn::Block], false);
    assert_eq!(none, Err(SftpError::NotifierAbsent));
    assert_eq!(
        sftp_bridge::session::notifier_error(String::from("wakeup failed")),
        SftpError::Notifier(String::from("wakeup failed"))
    );
}
