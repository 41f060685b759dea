use krust::mailbox::vc::{mailbox_accepts, mailbox_readable, ClockId, MemoryFlags, PowerDeviceId, VCMailbox, VoltageId};
use krust::mailbox::{is_reply_on, tag_mail};
use krust::postman::{
    debug_rc, fb_init_start, fb_init_step, framebuffer_address, rctoe, FbInitStage, FbSetup,
    PostmanErrorCodes,
};

#[test]
fn mail_words() {
    assert_eq!(tag_mail(0x0008_1230, 8), 0x0008_1238);
    assert!(is_reply_on(0x0008_1238, 8));
    assert!(!is_reply_on(0x0008_1239, 8));
    assert_eq!(VCMailbox::message_address(0x0008_1230), 0xC008_1230);
    assert!(mailbox_accepts(0));
    assert!(!mailbox_accepts(0x8000_0000));
    assert!(mailbox_readable(0x4000_0000));
    assert!(!mailbox_readable(0));
}

#[test]
fn property_requests() {
    let m = VCMailbox::get_display_size();
    assert_eq!((m.size, m.request, m.tag, m.buffer_size, m.request_size, m.end), (32, 0, 0x40003, 8, 8, 0));
    let m = VCMailbox::set_bitdepth(32);
    assert_eq!((m.size, m.tag, m.message.bit_depth), (24, 0x48005, 32));
    let m = VCMailbox::allocate_framebuffer(16);
    assert_eq!((m.size, m.tag, m.message.alignment, m.message.fb_size), (32, 0x40001, 16, 0));
    let m = VCMailbox::get_pitch();
    assert_eq!((m.size, m.tag, m.request_size), (21, 0x40008, 4));
    let m = VCMailbox::blank_screen(1);
    assert_eq!((m.size, m.tag, m.message), (24, 0x40002, 1));
    let m = VCMailbox::release_buffer();
    assert_eq!((m.size, m.tag, m.buffer_size), (24, 0x48001, 0));
}

#[test]
fn firmware_codes() {
    assert_eq!(PowerDeviceId::SdCard.code(), 0);
    assert_eq!(PowerDeviceId::Ccp2tx.code(), 8);
    assert_eq!(ClockId::Emmc.code(), 1);
    assert_eq!(VoltageId::Core.code(), 1);
    assert_eq!(MemoryFlags::Direct.code(), 4);
    assert_eq!(MemoryFlags::HintPermalock.code(), 0x40);
}

#[test]
fn response_codes() {
    assert!(matches!(rctoe(0), PostmanErrorCodes::MalformedStruct));
    assert!(matches!(rctoe(0x8000_0000), PostmanErrorCodes::PostmanSuccess));
    assert!(matches!(rctoe(0x8000_0001), PostmanErrorCodes::PostmanError));
    assert!(matches!(rctoe(7), PostmanErrorCodes::UndefinedCode));
    assert_eq!(rctoe(0x8000_0001).code(), 0x8000_0001);
    assert_eq!(debug_rc("Get pitch: ", rctoe(0x8000_0000)), b"Get pitch: Success!\n".to_vec());
    assert_eq!(debug_rc("Alloc: ", rctoe(0x8000_0001)), b"Alloc: Error :(.\n".to_vec());
    assert_eq!(debug_rc("", rctoe(0)), b"Malformed Struct.\n".to_vec());
    assert_eq!(debug_rc("x ", rctoe(3)), b"x Unknown error code.\n".to_vec());
}

#[test]
fn framebuffer_setup_collects_replies() {
    let mut buf = [0xFFFF_FFFFu32; 256];
    let st = fb_init_start(&mut buf);
    assert_eq!(st, FbInitStage::DisplaySize);
    assert_eq!(&buf[0..8], &[32, 0, 0x40003, 8, 8, 0, 0, 0]);
    assert_eq!(buf[8], 0xFFFF_FFFF);
    buf[1] = 0x8000_0000;
    buf[5] = 1920;
    buf[6] = 1080;
    let st = fb_init_step(st, &mut buf);
    assert_eq!(st, FbInitStage::BitDepth { width: 1920, height: 1080 });
    assert_eq!(&buf[0..7], &[24, 0, 0x48005, 4, 4, 32, 0]);
    let st = fb_init_step(st, &mut buf);
    assert_eq!(&buf[0..8], &[32, 0, 0x40001, 4, 8, 16, 0, 0]);
    buf[5] = 0xC800_0000;
    let st = fb_init_step(st, &mut buf);
    assert_eq!(st, FbInitStage::Pitch { width: 1920, height: 1080, ptr: 0xC800_0000 });
    assert_eq!(&buf[0..7], &[21, 0, 0x0004_0008, 0, 4, 0, 0]);
    buf[5] = 7680;
    let st = fb_init_step(st, &mut buf);
    let setup = FbSetup { addr: 0x0800_0000, width: 1920, height: 1080, pitch: 7680 };
    assert_eq!(st, FbInitStage::Done(setup));
    let again = fb_init_step(st, &mut buf);
    assert_eq!(again, FbInitStage::Done(setup));
    assert_eq!(framebuffer_address(0xC800_0000), 0x0800_0000);
}
