//! The VideoCore mailbox: the ARM writes a message address to mailbox 1
//! and reads replies from mailbox 0, each word tagged in its low four bits
//! with the channel.

use vstd::prelude::*;

pub mod vc;

verus! {

/// A mailbox word: a 16-byte aligned bus address in the upper 28 bits and
/// a channel in the lower four.
pub type Mail = u32;

/// The word written to send `mail` on `channel`: the channel is OR-ed in.
pub open spec fn tagged_mail(mail: Mail, channel: u8) -> u32 {
    mail | (channel as u32)
}

pub fn tag_mail(mail: Mail, channel: u8) -> (r: u32)
    ensures
        r == tagged_mail(mail, channel),
{
    mail | channel as u32
}

/// Whether a word read from the mailbox is a reply on `channel`.
pub fn is_reply_on(result: Mail, channel: u8) -> (r: bool)
    ensures
        r == (result & 0xF == channel as u32),
{
    (result & 0xF) == channel as u32
}

/// For a 16-byte aligned address and a channel below 16, the written word
/// keeps the address in its upper bits and names the channel in its low
/// four bits, so the reply test recognises it.
pub proof fn lemma_tagged_mail(mail: Mail, channel: u8)
    requires
        mail & 0xF == 0,
        channel < 16,
    ensures
        tagged_mail(mail, channel) & 0xF == channel as u32,
        tagged_mail(mail, channel) & !0xFu32 == mail,
{
    let c = channel as u32;
    assert((mail | c) & 0xF == c && (mail | c) & !0xFu32 == mail) by (bit_vector)
        requires
            mail & 0xF == 0,
            c < 16,
    ;
}

} // verus!
