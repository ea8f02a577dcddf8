use serviceless::completion::{Completion, CompletionPoll};
use serviceless::context::{Context, MailboxStep, Phase};
use serviceless::envelope::EnvelopWithMessage;
use serviceless::error::Error;
use serviceless::sample::{Service0, Service0Envelope, U16, U8};

#[test]
fn call_returns_handler_result() {
    let mut ctx: Context<Service0Envelope> = Context::new();
    let mut svc = Service0::default();
    ctx.start(&mut svc);
    let res = ctx.call(&mut svc, U8(8));
    assert_eq!(res, Ok(U8(10)));
    assert_eq!(svc.handled, 1);
}

#[test]
fn call_handles_both_message_types() {
    let mut ctx: Context<Service0Envelope> = Context::new();
    let mut svc = Service0::default();
    ctx.start(&mut svc);
    assert_eq!(ctx.call(&mut svc, U8(8)), Ok(U8(10)));
    assert_eq!(ctx.call(&mut svc, U16(8)), Ok(U16(308)));
    assert_eq!(svc.handled, 2);
}

#[test]
fn send_after_stop_is_service_stoped() {
    let mut ctx: Context<Service0Envelope> = Context::new();
    let mut svc = Service0::default();
    ctx.start(&mut svc);
    ctx.stop();
    assert!(ctx.is_stop());
    assert_eq!(ctx.send(U8(1)), Err(Error::ServiceStoped));
    assert_eq!(svc.handled, 0);
}

#[test]
fn call_after_stop_resolves_disconnected_at_once() {
    let mut ctx: Context<Service0Envelope> = Context::new();
    let mut svc = Service0::default();
    ctx.start(&mut svc);
    ctx.stop();
    assert_eq!(ctx.call(&mut svc, U8(8)), Err(Error::ServiceStoped));
    assert_eq!(svc.handled, 0);
}

#[test]
fn call_dispatches_backlog_first_in_fifo_order() {
    let mut ctx: Context<Service0Envelope> = Context::new();
    let mut svc = Service0::default();
    ctx.start(&mut svc);
    assert!(ctx.send(U8(1)).is_ok());
    assert!(ctx.send(U16(2)).is_ok());
    assert_eq!(ctx.queued_len(), 2);
    let res = ctx.call(&mut svc, U8(8));
    assert_eq!(res, Ok(U8(10)));
    // The two queued envelopes were dispatched before the call's own.
    assert_eq!(svc.handled, 3);
    assert_eq!(ctx.queued_len(), 0);
}

#[test]
fn paused_mailbox_discards_results() {
    let mut ctx: Context<Service0Envelope> = Context::new();
    let mut svc = Service0::default();
    ctx.start(&mut svc);
    ctx.pause();
    assert!(ctx.is_paused());
    let res = ctx.call(&mut svc, U8(8));
    assert_eq!(res, Err(Error::ServicePaused));
    // The message was accepted and executed; only the result was discarded.
    assert_eq!(svc.handled, 1);
}

#[test]
fn poll_step_runs_the_lifecycle() {
    let mut ctx: Context<Service0Envelope> = Context::new();
    let mut svc = Service0::default();
    assert_eq!(ctx.phase(), Phase::NotStarted);
    ctx.start(&mut svc);
    assert_eq!(ctx.phase(), Phase::Running);
    assert!(ctx.send(U8(3)).is_ok());
    assert_eq!(ctx.poll_step(&mut svc), MailboxStep::Dispatched);
    assert_eq!(svc.handled, 1);
    assert_eq!(ctx.poll_step(&mut svc), MailboxStep::Idle);
    ctx.stop();
    assert_eq!(ctx.poll_step(&mut svc), MailboxStep::Stopped);
    assert_eq!(ctx.phase(), Phase::Stopped);
}

#[test]
fn draining_dispatches_messages_accepted_before_closure() {
    let mut ctx: Context<Service0Envelope> = Context::new();
    let mut svc = Service0::default();
    ctx.start(&mut svc);
    assert!(ctx.send(U8(1)).is_ok());
    assert!(ctx.send(U8(2)).is_ok());
    ctx.stop();
    // No message submitted before closure is lost: both still dispatch.
    assert_eq!(ctx.poll_step(&mut svc), MailboxStep::Dispatched);
    assert_eq!(ctx.poll_step(&mut svc), MailboxStep::Dispatched);
    assert_eq!(svc.handled, 2);
    assert_eq!(ctx.poll_step(&mut svc), MailboxStep::Stopped);
}

#[test]
fn deliver_triggers_the_completion_cell() {
    let mut ctx: Context<Service0Envelope> = Context::new();
    let mut svc = Service0::default();
    ctx.start(&mut svc);
    let env = EnvelopWithMessage::new(U8(1), Some(Completion::new()));
    let done = env.deliver(&mut svc, &mut ctx);
    assert!(matches!(done, Some(Completion::Sent(U8(3)))));
}

#[test]
fn fire_and_forget_envelope_has_no_cell_to_trigger() {
    let mut ctx: Context<Service0Envelope> = Context::new();
    let mut svc = Service0::default();
    ctx.start(&mut svc);
    let env = EnvelopWithMessage::new(U8(1), None);
    let done = env.deliver(&mut svc, &mut ctx);
    assert!(done.is_none());
    assert_eq!(svc.handled, 1);
}

#[test]
fn completion_cell_hands_out_the_value_once() {
    let mut cell: Completion<u64> = Completion::new();
    assert!(cell.is_waiting());
    assert!(matches!(cell.poll_value(), CompletionPoll::Pending));
    cell.send(11);
    assert!(matches!(cell.poll_value(), CompletionPoll::Value(11)));
}

#[test]
fn abandoned_completion_resolves_canceled() {
    let mut cell: Completion<u64> = Completion::new();
    cell.cancel();
    assert!(matches!(cell.poll_value(), CompletionPoll::Canceled));
    assert!(matches!(cell.poll_value(), CompletionPoll::Canceled));
}

#[test]
fn address_handles_keep_the_mailbox_open() {
    let mut ctx: Context<Service0Envelope> = Context::new();
    let mut svc = Service0::default();
    ctx.start(&mut svc);
    // Five address handles cloned off the mailbox's own sender.
    for _ in 0..5 {
        ctx.clone_sender();
    }
    for _ in 0..5 {
        ctx.drop_sender();
        assert!(!ctx.is_stop());
    }
    ctx.drop_sender();
    assert!(ctx.is_stop());
    assert_eq!(ctx.send(U8(1)), Err(Error::ServiceStoped));
}

#[test]
fn service_wrapping_arithmetic() {
    let mut ctx: Context<Service0Envelope> = Context::new();
    let mut svc = Service0::default();
    ctx.start(&mut svc);
    assert_eq!(ctx.call(&mut svc, U8(254)), Ok(U8(0)));
    assert_eq!(ctx.call(&mut svc, U16(65436)), Ok(U16(200)));
}

#[test]
fn handlers_run_serialized_one_per_call() {
    let mut ctx: Context<Service0Envelope> = Context::new();
    let mut svc = Service0::default();
    ctx.start(&mut svc);
    // Each call observes the service alone: results are exact and the
    // handled count advances by exactly one per call.
    for i in 0..100u64 {
        assert_eq!(svc.handled, i);
        let v = (i % 200) as u8;
        assert_eq!(ctx.call(&mut svc, U8(v)), Ok(U8(v.wrapping_add(2))));
        assert_eq!(svc.handled, i + 1);
    }
}
