use crystal_api::bitflags::BufferFlags;
use crystal_api::debug::{error_line, log_line, size_display, validation_message_action, LoggingLevel, SizeUnit, ValidationMessageAction};
use crystal_api::errors::GraphicsError;
use crystal_api::settings::{DebugData, GraphicsApiInitSettings};

#[test]
fn flag_operators() {
    let u = BufferFlags::uniform();
    let t = BufferFlags::transfer();
    let s = BufferFlags::synced();
    assert!((u & t).is_none());
    assert!(!(u | t).is_none());
    assert_eq!((u | t) & t, t);
    assert_eq!((u | t) ^ t, u);
    assert_eq!(u ^ u, BufferFlags::empty());
    assert!((u | s).contains(s));
    assert!(!(u | s).contains(t));
    assert_eq!(BufferFlags::default(), BufferFlags::empty());
    assert!(BufferFlags::default().is_none());
}

#[test]
fn error_names() {
    assert_eq!(GraphicsError::DataError.name(), "DataError");
    assert_eq!(GraphicsError::ConnotInitLibrary.to_string(), "ConnotInitLibrary");
    assert_eq!(GraphicsError::MemoryError.to_string(), "MemoryError");
}

#[test]
fn log_lines() {
    assert_eq!(log_line(LoggingLevel::Console, "hello"), Some("[LOG] hello".to_string()));
    assert_eq!(log_line(LoggingLevel::Off, "hello"), None);
    assert_eq!(error_line(LoggingLevel::Console, "bad"), Some("[ERROR] bad".to_string()));
    assert_eq!(error_line(LoggingLevel::Off, "bad"), None);
}

#[test]
fn size_units() {
    assert_eq!(size_display(512), (SizeUnit::Bytes, 1));
    assert_eq!(size_display(1024), (SizeUnit::Kilobytes, 1024));
    assert_eq!(size_display(1024 * 1024), (SizeUnit::Megabytes, 1024 * 1024));
    assert_eq!(size_display(3 * 1024 * 1024 * 1024), (SizeUnit::Gigabytes, 1024 * 1024 * 1024));
    assert_eq!(SizeUnit::Kilobytes.suffix(), "KB");
    assert_eq!(SizeUnit::Bytes.suffix(), "B");
}

#[test]
fn validation_messages() {
    assert_eq!(validation_message_action(0x1000, true), ValidationMessageAction::Abort);
    assert_eq!(validation_message_action(0x1100, true), ValidationMessageAction::Abort);
    assert_eq!(validation_message_action(0x100, true), ValidationMessageAction::Log);
    assert_eq!(validation_message_action(0x1000, false), ValidationMessageAction::LogMissing);
}

#[test]
fn settings_builders() {
    let s = GraphicsApiInitSettings::default();
    assert_eq!(s.msaa_samples, 0);
    let s = s.msaa_samples(4).width(800).height(600).bypass_capability_check(true);
    assert_eq!(s, GraphicsApiInitSettings { msaa_samples: 4, width: 800, height: 600, bypass_capability_check: true });
    let t = s.width(1024);
    assert_eq!(t.width, 1024);
    assert_eq!(t.height, 600);
    assert_eq!(t.msaa_samples, 4);
}

#[test]
fn debug_data() {
    let d = DebugData::from_heaps(&[10, 20], &[100, 200]);
    assert_eq!(d.used_memory, 10);
    assert_eq!(d.aviable_memory, 100);
}
