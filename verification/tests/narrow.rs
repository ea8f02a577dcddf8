use serviceless::address::{Address, ForwardStep};
use serviceless::context::{Context, MailboxStep};
use serviceless::error::Error;
use serviceless::sample::{Service0, Service0Envelope, U8};

#[test]
fn narrowed_send_is_relayed_to_the_service() {
    let mut ctx: Context<Service0Envelope> = Context::new();
    let mut svc = Service0::default();
    ctx.start(&mut svc);
    let mut addr: Address<U8> = Address::new();
    assert!(addr.send(U8(4)).is_ok());
    assert_eq!(addr.forward_step(&mut ctx), ForwardStep::Forwarded);
    assert_eq!(ctx.poll_step(&mut svc), MailboxStep::Dispatched);
    assert_eq!(svc.handled, 1);
}

#[test]
fn narrowed_call_envelope_travels_with_its_cell() {
    let mut ctx: Context<Service0Envelope> = Context::new();
    let mut svc = Service0::default();
    ctx.start(&mut svc);
    let mut addr: Address<U8> = Address::new();
    assert!(addr.call_enqueue(U8(8)).is_ok());
    assert_eq!(addr.forward_step(&mut ctx), ForwardStep::Forwarded);
    assert_eq!(ctx.poll_step(&mut svc), MailboxStep::Dispatched);
    assert_eq!(svc.handled, 1);
}

#[test]
fn relay_parks_when_nothing_was_submitted() {
    let mut ctx: Context<Service0Envelope> = Context::new();
    let mut svc = Service0::default();
    ctx.start(&mut svc);
    let mut addr: Address<U8> = Address::new();
    assert_eq!(addr.forward_step(&mut ctx), ForwardStep::Parked);
}

#[test]
fn narrowed_address_reports_closed_within_one_relay_cycle() {
    let mut ctx: Context<Service0Envelope> = Context::new();
    let mut svc = Service0::default();
    ctx.start(&mut svc);
    let mut addr: Address<U8> = Address::new();
    // The narrowed address still accepts while its own channel is open.
    assert!(addr.send(U8(1)).is_ok());
    ctx.stop();
    // One relay cycle against the closed target...
    assert_eq!(addr.forward_step(&mut ctx), ForwardStep::Exited);
    // ...and the narrowed address reports closed from then on.
    assert!(addr.is_stop());
    assert_eq!(addr.send(U8(2)), Err(Error::ServiceStoped));
    assert_eq!(addr.call_enqueue(U8(2)), Err(Error::ServiceStoped));
}

#[test]
fn relay_exits_once_its_own_channel_drains_out() {
    let mut ctx: Context<Service0Envelope> = Context::new();
    let mut svc = Service0::default();
    ctx.start(&mut svc);
    let mut addr: Address<U8> = Address::new();
    assert!(addr.send(U8(1)).is_ok());
    // The one address handle goes away: the private channel closes.
    addr.drop_sender_handle();
    assert_eq!(addr.forward_step(&mut ctx), ForwardStep::Forwarded);
    assert_eq!(addr.forward_step(&mut ctx), ForwardStep::Exited);
    assert_eq!(ctx.poll_step(&mut svc), MailboxStep::Dispatched);
    assert_eq!(svc.handled, 1);
}
