use bringup::board::board_name;
use bringup::board::device_drivers;
use bringup::board::Board;
use bringup::board::BootInput;
use bringup::board::DriverId;
use bringup::interface::DeviceDriver;
use bringup::interface::Mutex;
use bringup::interface::Read;
use bringup::interface::Statistics;
use bringup::interface::Write;
use bringup::lifecycle::LifecycleState;
use bringup::lifecycle::Registry;
use bringup::mail::Mail;
use bringup::mail::Tag;
use bringup::mail::BUFFER_WORDS;
use bringup::mailbox::FirmwareResponse;
use bringup::peripherals::AuxRegisters;
use bringup::peripherals::SysTimer;
use bringup::gpio::GPIO;
use bringup::sync::NullLock;
use bringup::uart::decode_received;

const BUF_ADDR: u32 = 0x80_000;
const MATCH_WORD: u32 = BUF_ADDR | 8;

/// The observation of a firmware that applied the given UART clock
/// rate in answer to the boot-time negotiation.
fn clock_reply(applied: u32) -> FirmwareResponse {
    let mut request = Mail::new();
    request.encode_request(Tag::SetClockRate.value(), &vec![2, applied, 0]);
    let mut buffer = request.buffer.clone();
    buffer[1] = 0x8000_0000;
    buffer[6] = applied;
    FirmwareResponse { words: vec![MATCH_WORD], buffer }
}

fn boot_input(applied: u32) -> BootInput {
    BootInput { buf_addr: BUF_ADDR, uart_clock: clock_reply(applied) }
}

#[test]
fn registry_starts_uninitialized() {
    let registry = Registry::new(3);
    assert_eq!(registry.states, vec![LifecycleState::Uninitialized; 3]);
}

#[test]
fn registry_initializes_in_order() {
    let mut registry = Registry::new(4);
    let outcomes = vec![true, true, true, true];
    assert_eq!(registry.initialize_all(&outcomes), Ok(()));
    assert_eq!(registry.states, vec![LifecycleState::Ready; 4]);
}

#[test]
fn registry_short_circuits_on_first_failure() {
    // The second driver fails: the third driver's setup is never
    // invoked, so it stays untouched in Uninitialized.
    let mut registry = Registry::new(3);
    let outcomes = vec![true, false, true];
    assert_eq!(registry.initialize_all(&outcomes), Err(1));
    assert_eq!(
        registry.states,
        vec![
            LifecycleState::Ready,
            LifecycleState::Initializing,
            LifecycleState::Uninitialized,
        ]
    );
}

#[test]
fn device_drivers_are_fixed_and_ordered() {
    let drivers = device_drivers();
    assert_eq!(
        drivers,
        vec![
            DriverId::Gpio,
            DriverId::SysTimer,
            DriverId::Aux,
            DriverId::Rng,
            DriverId::MiniUart,
            DriverId::Mbox,
            DriverId::Uart0,
            DriverId::Usb,
        ]
    );
}

#[test]
fn compatible_strings_identify_each_driver() {
    let board = Board::new();
    assert_eq!(board.compatible(DriverId::Gpio), "BCM2837 GPIO");
    assert_eq!(board.compatible(DriverId::SysTimer), "BCM2835 System Timer");
    assert_eq!(board.compatible(DriverId::Aux), "BCM2XXX AUX Register");
    assert_eq!(
        board.compatible(DriverId::Rng),
        "BCM2835 Hardware Random Number Generator"
    );
    assert_eq!(board.compatible(DriverId::MiniUart), "BCM2XXX MiniUart");
    assert_eq!(board.compatible(DriverId::Mbox), "BCM2XXX Mailbox");
    assert_eq!(board.compatible(DriverId::Uart0), "BCM2XXX UART");
    assert_eq!(board.compatible(DriverId::Usb), "DWC USB 2.0 OTG Driver");
}

#[test]
fn boot_succeeds_when_firmware_applies_the_required_rate() {
    let mut board = Board::new();
    let input = boot_input(4_000_000);
    assert!(board.init(&input).is_ok());
    assert_eq!(board.registry.states, vec![LifecycleState::Ready; 8]);
    assert!(board.uart0.inner.data.enabled);
    assert_eq!(board.uart0.inner.data.ibrd, 2);
    assert_eq!(board.uart0.inner.data.fbrd, 0xB);
    assert!(board.mini_uart.inner.data.enabled);
    // The boot sequence ends by mapping pins 14 and 15 to the mini
    // UART.
    assert_eq!(board.gpio.inner.data.fsel1, 0x12000);
}

#[test]
fn boot_halts_at_the_uart_when_the_rate_differs() {
    let mut board = Board::new();
    let input = boot_input(3_000_000);
    let e = board.init(&input).unwrap_err();
    assert_eq!(e.index, 6);
    assert_eq!(e.name, "BCM2XXX UART");
    assert!(!board.uart0.inner.data.enabled);
    // The USB driver, after the failing UART, was never invoked.
    assert_eq!(board.registry.states[6], LifecycleState::Initializing);
    assert_eq!(board.registry.states[7], LifecycleState::Uninitialized);
    // The drivers before the UART all completed.
    for i in 0..6 {
        assert_eq!(board.registry.states[i], LifecycleState::Ready);
    }
}

#[test]
fn board_name_is_fixed() {
    assert_eq!(board_name(), "Raspberry Pi 3");
}

#[test]
fn board_mac_reads_the_mailbox_answer() {
    let mut board = Board::new();
    let mut buffer = vec![0u32; BUFFER_WORDS];
    buffer[1] = 0x8000_0000;
    buffer[5] = 0x7856_3412;
    buffer[6] = 0xB0DE;
    let fw = FirmwareResponse { words: vec![MATCH_WORD], buffer };
    assert_eq!(board.board_mac(BUF_ADDR, &fw), Ok(0x0000_B0DE_7856_3412u64));
}

#[test]
fn rand_folds_entropy_into_the_range() {
    let mut board = Board::new();
    // raw = (7 << 32) | 9; 10 + raw % 10 keeps the low digit.
    let raw: u64 = (7u64 << 32) | 9;
    let expected = (raw as usize) % 10 + 10;
    assert_eq!(board.rand(10, 20, 7, 9), expected);
    let r = board.rand(5, 6, 0xFFFF_FFFF, 0xFFFF_FFFF);
    assert_eq!(r, 5);
}

#[test]
fn cell_hands_out_one_scoped_access_at_a_time() {
    // Exclusive access is a borrow: the guard must be dropped before
    // the cell can be locked again, so two simultaneously-live
    // accesses to the wrapped state cannot be expressed.
    let mut cell = NullLock::new(41u32);
    let guard = cell.lock();
    *guard += 1;
    let again = cell.lock();
    assert_eq!(*again, 42);
}

#[test]
fn console_counts_written_characters() {
    let mut board = Board::new();
    let console = board.console();
    console.write_char('h');
    console.write_char('i');
    assert_eq!(console.chars_written(), 2);
    assert_eq!(console.chars_read(), 0);
    assert_eq!(board.mini_uart.inner.data.written, vec!['h', 'i']);
}

#[test]
fn console_reads_pending_bytes_and_maps_carriage_return() {
    let mut board = Board::new();
    board.mini_uart.push_incoming(b'a');
    board.mini_uart.push_incoming(b'\r');
    let console = board.console();
    assert_eq!(console.read_char(), 'a');
    assert_eq!(console.read_char(), '\n');
    // Nothing pending: the console reports a space.
    assert_eq!(console.read_char(), ' ');
}

#[test]
fn received_bytes_decode_with_newline_mapping() {
    assert_eq!(decode_received(b'x'), 'x');
    assert_eq!(decode_received(b'\r'), '\n');
    assert_eq!(decode_received(b'\n'), '\n');
}

#[test]
fn gpio_maps_pins_for_each_uart() {
    let mut gpio = GPIO::new(0x3F20_0000);
    gpio.map_uart0();
    assert_eq!(gpio.inner.data.fsel1, 0x24000);
    assert_eq!(gpio.inner.data.pudclk0, 0);
    gpio.map_mini_uart();
    assert_eq!(gpio.inner.data.fsel1, 0x12000);
    assert_eq!(gpio.inner.data.pud, 0);
}

#[test]
fn systimer_compare_registers_round_trip() {
    let mut timer = SysTimer::new(0x3F00_3000);
    timer.set_c1_register(777);
    assert_eq!(timer.get_c1_register(), 777);
    assert_eq!(timer.get_c0_register(), 0);
    timer.set_c3_register(5);
    assert_eq!(timer.get_c3_register(), 5);
    assert_eq!(timer.get_c1_register(), 777);
}

#[test]
fn systimer_assembles_counter_halves() {
    let timer = SysTimer::new(0x3F00_3000);
    assert_eq!(timer.get_systimer(1, 2), 0x1_0000_0002);
    assert!(timer.wait_complete(1000, 0, 999));
    assert!(!timer.wait_complete(999, 0, 999));
}

#[test]
fn wait_consumes_samples_until_one_passes_the_deadline() {
    let board = Board::new();
    let samples = vec![100, 150, 201, 300];
    // Begun at 100 for 100 microseconds: the first sample past 200.
    assert_eq!(board.wait_usec(100, 100, &samples), 2);
    // A counter reading zero skips the wait entirely.
    assert_eq!(board.wait_usec(100, 0, &samples), 0);
}

#[test]
fn uart0_exposes_the_console_surface() {
    let mut board = Board::new();
    board.uart0.push_incoming(b'\r');
    let uart = board.uart0();
    assert_eq!(uart.read_char(), '\n');
    uart.write_char('y');
    assert_eq!(uart.chars_written(), 1);
    assert_eq!(uart.chars_read(), 0);
}

#[test]
fn aux_enables_track_each_device_bit() {
    let mut aux = AuxRegisters::new(0x3F21_5000);
    aux.enable_mini_uart();
    assert_eq!(aux.inner.data.enables, 1);
    assert!(aux.inner.data.get_mini_uart_enabled());
    assert!(!aux.inner.data.get_spi1_enabled());
    aux.inner.data.set_spi1(true);
    assert_eq!(aux.inner.data.enables, 3);
    aux.inner.data.set_mini_uart(false);
    assert_eq!(aux.inner.data.enables, 2);
    assert!(!aux.inner.data.get_mini_uart_enabled());
    assert!(aux.inner.data.get_spi2_enabled() == false);
}

#[test]
fn drivers_report_trivial_init_success() {
    let mut board = Board::new();
    assert_eq!(board.gpio.init(), Ok(()));
    assert_eq!(board.systimer.init(), Ok(()));
    assert_eq!(board.rng.init(), Ok(()));
    assert!(board.rng.inner.data.enabled);
    assert_eq!(board.mbox.init(), Ok(()));
    assert_eq!(board.usb.init(), Ok(()));
}
