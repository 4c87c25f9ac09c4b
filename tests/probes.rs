use morse_rsdk::bench::{
    average, baud_divisor, bytes_per_second, fill_test_message, uart_throughput, BaudDivisor,
};
use morse_rsdk::latency::{ticks_to_us, LatencyProbe};
use morse_rsdk::lcd::{cursor_command, enable_pulse, nibble_frames, row_address};

#[test]
fn latency_is_read_once() {
    let mut p = LatencyProbe::new();
    p.arm(1_000);
    assert_eq!(p.take(125_000_000), None);
    p.on_interrupt(1_250);
    assert_eq!(p.latency_ticks, 250);
    assert_eq!(p.take(125_000_000), Some(2));
    assert_eq!(p.take(125_000_000), None);
}

#[test]
fn latency_wraps_and_rearms() {
    let mut p = LatencyProbe::new();
    p.arm(u32::MAX - 9);
    p.on_interrupt(10);
    assert_eq!(p.latency_ticks, 20);
    p.arm(500);
    p.on_interrupt(1500);
    assert_eq!(p.take(1_000_000), Some(1000));
}

#[test]
fn tick_conversion() {
    assert_eq!(ticks_to_us(125, 125_000_000), 1);
    assert_eq!(ticks_to_us(u32::MAX, 1_000_000), u32::MAX as u64);
    assert_eq!(ticks_to_us(u32::MAX, 1), u32::MAX as u64 * 1_000_000);
    assert_eq!(ticks_to_us(100, 0), 0);
}

#[test]
fn benchmark_arithmetic() {
    assert_eq!(average(12_345, 1000), 12);
    assert_eq!(average(5, 0), 0);
    assert_eq!(bytes_per_second(250, 21_701), 11_520);
    assert_eq!(bytes_per_second(10, 0), 0);
    assert_eq!(uart_throughput(100, 10), 11_520);
    assert_eq!(uart_throughput(100, 11), 9_090_909);
    assert_eq!(uart_throughput(50, 5000), 10_000);
}

#[test]
fn test_message_rotates_letters() {
    let mut buf = vec![b'A'; 6];
    fill_test_message(&mut buf, 4, 1);
    assert_eq!(buf, b"BCDEAA".to_vec());
    let mut short = vec![0u8; 3];
    fill_test_message(&mut short, 10, 25);
    assert_eq!(short, b"ZAB".to_vec());
}

#[test]
fn baud_divisors() {
    assert_eq!(baud_divisor(125_000_000, 115_200), BaudDivisor { integer: 67, fraction: 52 });
    assert_eq!(baud_divisor(16_000_000, 1_000_000), BaudDivisor { integer: 1, fraction: 0 });
}

#[test]
fn lcd_framing() {
    assert_eq!(nibble_frames(0x28, false), (0x28, 0x88));
    assert_eq!(nibble_frames(b'A', true), (0x49, 0x19));
    assert_eq!(enable_pulse(0x49), (0x4D, 0x49));
    assert_eq!(enable_pulse(0xF4), (0xFC, 0xF8));
    assert_eq!(cursor_command(0, 0), 0x80);
    assert_eq!(cursor_command(0, 1), 0xC0);
    assert_eq!(cursor_command(3, 6), 0x97);
    assert_eq!(cursor_command(0x30, 0), 0xB0);
    assert_eq!(cursor_command(0x2B, 3), 0xFF);
    assert_eq!(row_address(1), 0x40);
    assert_eq!(row_address(7), 0x54);
}
