//! Serial port printers for QEMU logs writing: which bytes of a string they
//! send to COM1.

use vstd::prelude::*;
use vstd::string::StringSliceAdditionalSpecFns;

verus! {

/// Whether `ch` is an ASCII control character: below the space, or DEL.
pub open spec fn spec_is_ascii_control(ch: u8) -> bool {
    ch < 0x20 || ch == 0x7F
}

/// Whether a printer sends `ch`: control characters but the newline are left
/// out.
pub open spec fn spec_is_sent(ch: u8) -> bool {
    !spec_is_ascii_control(ch) || ch == 0x0A
}

/// The bytes of `bytes` that a printer sends, in their order.
pub open spec fn sent_bytes(bytes: Seq<u8>) -> Seq<u8>
    decreases bytes.len(),
{
    if bytes.len() == 0 {
        Seq::empty()
    } else if spec_is_sent(bytes.last()) {
        sent_bytes(bytes.drop_last()).push(bytes.last())
    } else {
        sent_bytes(bytes.drop_last())
    }
}

/// Whether a printer sends `ch`.
pub fn is_sent(ch: u8) -> (sent: bool)
    ensures
        sent == spec_is_sent(ch),
{
    !(ch < 0x20 || ch == 0x7F) || ch == 0x0A
}

/// The bytes of `s` that go to the serial port.
pub fn bytes_to_send(s: &str) -> (out: Vec<u8>)
    ensures
        out@ == sent_bytes(s.spec_bytes()),
{
    let bytes = s.as_bytes();
    let mut out: Vec<u8> = Vec::new();
    let mut i: usize = 0;
    while i < bytes.len()
        invariant
            i <= bytes@.len(),
            out@ == sent_bytes(bytes@.take(i as int)),
        decreases bytes@.len() - i,
    {
        let ch = bytes[i];
        proof {
            let next = bytes@.take(i + 1);
            assert(next.drop_last() == bytes@.take(i as int));
            assert(next.last() == bytes@[i as int]);
        }
        if is_sent(ch) {
            out.push(ch);
        }
        i += 1;
    }
    proof {
        assert(bytes@.take(i as int) == bytes@);
    }
    out
}

/// What a printer sends is made of bytes of the string, none of them a
/// control character other than the newline, and a string without such
/// characters is sent whole.
pub proof fn lemma_sent_bytes(bytes: Seq<u8>)
    ensures
        sent_bytes(bytes).len() <= bytes.len(),
        forall|i: int|
            0 <= i < sent_bytes(bytes).len() ==> spec_is_sent(#[trigger] sent_bytes(bytes)[i]),
        (forall|i: int| 0 <= i < bytes.len() ==> spec_is_sent(#[trigger] bytes[i]))
            ==> sent_bytes(bytes) == bytes,
    decreases bytes.len(),
{
    if bytes.len() > 0 {
        lemma_sent_bytes(bytes.drop_last());
        if forall|i: int| 0 <= i < bytes.len() ==> spec_is_sent(#[trigger] bytes[i]) {
            assert forall|i: int| 0 <= i < bytes.drop_last().len() implies spec_is_sent(
                #[trigger] bytes.drop_last()[i],
            ) by {
                assert(bytes.drop_last()[i] == bytes[i]);
            }
            assert(spec_is_sent(bytes[bytes.len() - 1]));
            assert(bytes.drop_last().push(bytes.last()) == bytes);
        }
    }
}

/// Whether every byte that is sent of `bytes` was handed to `send`.
pub open spec fn all_sent<F: Fn(u8)>(send: F, bytes: Seq<u8>) -> bool {
    forall|i: int|
        0 <= i < sent_bytes(bytes).len() ==> call_ensures(
            send,
            (#[trigger] sent_bytes(bytes)[i],),
            (),
        )
}

/// Hands the bytes of `s` that go to the serial port to `send`, one by one in
/// their order, and returns their number.
pub fn send_str<F: Fn(u8)>(s: &str, send: F) -> (sent: usize)
    requires
        forall|ch: u8| spec_is_sent(ch) ==> call_requires(send, (ch,)),
    ensures
        sent == sent_bytes(s.spec_bytes()).len(),
        all_sent(send, s.spec_bytes()),
{
    let bytes = s.as_bytes();
    let mut sent: usize = 0;
    let mut i: usize = 0;
    while i < bytes.len()
        invariant
            i <= bytes@.len(),
            sent == sent_bytes(bytes@.take(i as int)).len(),
            sent <= i,
            all_sent(send, bytes@.take(i as int)),
            forall|ch: u8| spec_is_sent(ch) ==> call_requires(send, (ch,)),
        decreases bytes@.len() - i,
    {
        let ch = bytes[i];
        proof {
            let next = bytes@.take(i + 1);
            assert(next.drop_last() == bytes@.take(i as int));
            assert(next.last() == bytes@[i as int]);
        }
        if is_sent(ch) {
            send(ch);
            sent += 1;
        }
        i += 1;
    }
    proof {
        assert(bytes@.take(i as int) == bytes@);
    }
    sent
}

/// Serial port printer for QEMU logs writing
///
/// Locks COM1 PORT
///
/// **Don't use in interrupts**
#[derive(Debug, Clone, Copy, PartialEq, Eq, Structural)]
pub struct SerialPrinter;

/// Serial port printer but not locks COM1 PORT
/// Useful for in interrupts printing
#[derive(Debug, Clone, Copy, PartialEq, Eq, Structural)]
pub struct SerialPrinterLockFree;

/// Serial port printer for QEMU logs writing that takes the port for each
/// byte.
///
/// **Don't use in interrupts**
#[derive(Debug, Clone, Copy, PartialEq, Eq, Structural)]
pub struct SerialDebugPrinter;

impl SerialPrinter {
    /// Sends `s` to COM1 through `send`, without its control characters
    /// other than the newline. Returns the number of bytes sent.
    pub fn write_str<F: Fn(u8)>(&mut self, s: &str, send: F) -> (sent: usize)
        requires
            forall|ch: u8| spec_is_sent(ch) ==> call_requires(send, (ch,)),
        ensures
            sent == sent_bytes(s.spec_bytes()).len(),
            all_sent(send, s.spec_bytes()),
            *final(self) == *old(self),
    {
        send_str(s, send)
    }
}

impl SerialPrinterLockFree {
    /// Sends `s` to COM1 through `send`, without its control characters
    /// other than the newline. Returns the number of bytes sent.
    pub fn write_str<F: Fn(u8)>(&mut self, s: &str, send: F) -> (sent: usize)
        requires
            forall|ch: u8| spec_is_sent(ch) ==> call_requires(send, (ch,)),
        ensures
            sent == sent_bytes(s.spec_bytes()).len(),
            all_sent(send, s.spec_bytes()),
            *final(self) == *old(self),
    {
        send_str(s, send)
    }
}

impl SerialDebugPrinter {
    /// Sends `s` to COM1 through `send`, without its control characters
    /// other than the newline. Returns the number of bytes sent.
    pub fn write_str<F: Fn(u8)>(&mut self, s: &str, send: F) -> (sent: usize)
        requires
            forall|ch: u8| spec_is_sent(ch) ==> call_requires(send, (ch,)),
        ensures
            sent == sent_bytes(s.spec_bytes()).len(),
            all_sent(send, s.spec_bytes()),
            *final(self) == *old(self),
    {
        send_str(s, send)
    }
}

} // verus!
