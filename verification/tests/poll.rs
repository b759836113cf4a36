use rustix::event::poll;
use rustix::event::PollFd;
use rustix::event::PollFlags;
use rustix::time::Timespec;
use xwm_selection::incoming::IncomingTransfer;
use xwm_selection::poll::reader_gone;
use xwm_selection::clock::Instant;

#[test]
fn error_or_hang_up_means_gone() {
    assert!(reader_gone::<()>(Ok(8)));
    assert!(reader_gone::<()>(Ok(16)));
    assert!(reader_gone::<()>(Ok(4 | 8)));
    assert!(reader_gone::<()>(Ok(u16::MAX)));
    assert!(!reader_gone::<()>(Ok(0)));
    assert!(!reader_gone::<()>(Ok(4)));
    assert!(!reader_gone::<()>(Ok(!24)));
    assert!(!reader_gone(Err("interrupted")));
}

#[test]
fn reader_that_closes_its_pipe_is_gone() {
    let (reader, writer) = rustix::pipe::pipe().unwrap();
    let revents = |writer| {
        let mut fds = [PollFd::new(writer, PollFlags::OUT)];
        poll(&mut fds, Some(&Timespec::default())).map(|_| fds[0].revents().bits())
    };
    assert!(!reader_gone(revents(&writer)));
    drop(reader);
    assert!(reader_gone(revents(&writer)));

    let event_loop: calloop::EventLoop<'_, ()> = calloop::EventLoop::try_new().unwrap();
    let token = event_loop
        .handle()
        .insert_source(calloop::timer::Timer::immediate(), |_, _, _| {
            calloop::timer::TimeoutAction::Drop
        })
        .unwrap();
    let transfer = IncomingTransfer::new(token, 1, (), 0, Instant { nanos: 0 });
    assert!(transfer.reader_gone(revents(&writer)));
    assert!(!transfer.reader_gone(Err("interrupted")));
}

#[test]
fn elapsed_time_is_never_negative() {
    let early = Instant { nanos: 5 };
    let late = Instant { nanos: 12 };
    assert_eq!(late.saturating_duration_since(early), 7);
    assert_eq!(early.saturating_duration_since(late), 0);
    assert_eq!(early.saturating_duration_since(early), 0);
}
