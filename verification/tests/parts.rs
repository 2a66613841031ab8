use sm2m_adapter::buffer::{Buffer, BUFFER_SIZE};
use sm2m_adapter::emulator::keyboard::{
    keyboard_handler, Debouncer, Key, Keyboard, Order, MAX_DEBOUNCES,
};
use sm2m_adapter::error::{
    AppError, ControllerError, FileError, FilenameError, SpiError, MAX_OPCODE,
};
use sm2m_adapter::indicators::Indicators;
use sm2m_adapter::led::Led;
use sm2m_adapter::sdmmc::controller::{
    copy_file, delete_file, is_file_exists, try_read_all, write_all, CopyStep, Progress,
};
use sm2m_adapter::sdmmc::detect::{sdmmc_detect, AppState, Lamp};
use sm2m_adapter::sdmmc::file::{AsFileName, FileName, FILE_NAME_LEN};
use sm2m_adapter::sdmmc::request::Request;
use sm2m_adapter::sdmmc::time::StaticTimeSource;
use sm2m_adapter::status::Display;

fn spi_errors() -> Vec<(SpiError, u16)> {
    vec![
        (SpiError::Transport, 4),
        (SpiError::CantEnableCRC, 5),
        (SpiError::TimeoutReadBuffer, 6),
        (SpiError::TimeoutWaitNotBusy, 7),
        (SpiError::TimeoutCommand(17), 8),
        (SpiError::TimeoutACommand(41), 9),
        (SpiError::Cmd58Error, 10),
        (SpiError::RegisterReadError, 11),
        (SpiError::CrcError(1, 2), 12),
        (SpiError::ReadError, 13),
        (SpiError::WriteError, 14),
        (SpiError::BadState, 15),
        (SpiError::CardNotFound, 16),
        (SpiError::GpioError, 17),
    ]
}

#[test]
fn opcode_of_each_protocol_fault() {
    assert_eq!(AppError::SdmmcDetached.opcode(), 1);
    assert_eq!(AppError::UnknownCommand.opcode(), 2);
    assert_eq!(AppError::UnhandledCommand.opcode(), 3);
    assert_eq!(AppError::UnhandledReadyCommand.opcode(), 45);
    assert_eq!(AppError::UnhandledAddressCommand.opcode(), 46);
    assert_eq!(AppError::SdMmcFile(FileError::InvalidOffset).opcode(), 44);
    assert_eq!(MAX_OPCODE, 46);
}

#[test]
fn opcode_of_each_link_fault() {
    for (fault, opcode) in spi_errors() {
        assert_eq!(fault.opcode(), opcode);
        assert_eq!(AppError::SdMmcSpi(fault).opcode(), opcode);
        assert_eq!(AppError::SdMmcController(ControllerError::DeviceError(fault)).opcode(), opcode);
        assert_eq!(AppError::from_spi(fault), AppError::SdMmcSpi(fault));
    }
    assert_eq!(SpiError::TimeoutCommand(0).opcode(), SpiError::TimeoutCommand(255).opcode());
    assert_eq!(SpiError::CrcError(0, 0).opcode(), SpiError::CrcError(9, 7).opcode());
}

#[test]
fn opcode_of_each_file_system_fault() {
    let cases = [
        (ControllerError::FormatError("bad"), 18),
        (ControllerError::NoSuchVolume, 19),
        (ControllerError::FilenameError(FilenameError::InvalidCharacter), 20),
        (ControllerError::FilenameError(FilenameError::FilenameEmpty), 21),
        (ControllerError::FilenameError(FilenameError::NameTooLong), 22),
        (ControllerError::FilenameError(FilenameError::MisplacedPeriod), 23),
        (ControllerError::FilenameError(FilenameError::Utf8Error), 24),
        (ControllerError::TooManyOpenDirs, 25),
        (ControllerError::TooManyOpenFiles, 26),
        (ControllerError::FileNotFound, 27),
        (ControllerError::FileAlreadyOpen, 28),
        (ControllerError::DirAlreadyOpen, 29),
        (ControllerError::OpenedDirAsFile, 30),
        (ControllerError::DeleteDirAsFile, 31),
        (ControllerError::FileIsOpen, 32),
        (ControllerError::Unsupported, 33),
        (ControllerError::EndOfFile, 34),
        (ControllerError::BadCluster, 35),
        (ControllerError::ConversionError, 36),
        (ControllerError::NotEnoughSpace, 37),
        (ControllerError::AllocationError, 38),
        (ControllerError::JumpedFree, 39),
        (ControllerError::ReadOnly, 40),
        (ControllerError::FileAlreadyExists, 41),
        (ControllerError::BadBlockSize(1024), 42),
        (ControllerError::NotInBlock, 43),
    ];
    for (fault, opcode) in cases {
        assert_eq!(fault.opcode(), opcode);
        assert_eq!(AppError::SdMmcController(fault).opcode(), opcode);
        assert_eq!(AppError::from_controller(fault), AppError::SdMmcController(fault));
    }
    assert_eq!(FilenameError::FilenameEmpty.opcode(), 21);
    assert_eq!(AppError::from_file(FileError::InvalidOffset).opcode(), 44);
}

#[test]
fn file_name_is_least_significant_digit_first() {
    assert_eq!(FileName::from(1).as_str(), "1");
    assert_eq!(FileName::from(12).as_str(), "21");
    assert_eq!(FileName::from(123).as_str(), "321");
    assert_eq!(FileName::from(100).as_str(), "001");
    assert_eq!(FileName::from(4096).as_str(), "6904");
    assert_eq!(FileName::from(65535).as_str(), "53556");
    assert_eq!(FileName::from(10000).as_str(), "00001");
    assert_eq!(FileName::from(65535).as_str().len(), FILE_NAME_LEN);
}

#[test]
fn file_name_of_zero_is_empty() {
    assert_eq!(FileName::from(0).as_str(), "");
    assert_eq!(FileName::new().as_str(), "");
}

#[test]
fn file_name_trait_and_copy() {
    let name = 507u16.as_file_name();
    assert_eq!(name.as_str(), "705");
    let copy = name.duplicate();
    assert_eq!(copy.as_str(), "705");
    assert_eq!(name.as_str(), "705");
    let request = Request::Fetch { name: copy, offset: 0, len: 1 };
    assert_eq!(request.name().map(|name| name.as_str()), Some("705"));
    assert!(Request::Probe.name().is_none());
}

#[test]
fn buffer_words_are_little_endian() {
    let mut buffer = Buffer::with_capacity(6);
    assert!(buffer.is_empty() && buffer.is_exhausted() && !buffer.is_full());
    buffer.push_word(0x1234);
    assert_eq!(buffer.contents(), vec![0x34, 0x12]);
    buffer.push_word(0x00FF);
    buffer.push_word(0xFF00);
    assert_eq!(buffer.contents(), vec![0x34, 0x12, 0xFF, 0x00, 0x00, 0xFF]);
    assert!(buffer.is_full());
    assert_eq!((buffer.len(), buffer.capacity()), (6, 6));
    assert!(!buffer.is_exhausted());
    assert_eq!(buffer.pop_word(), 0x1234);
    assert_eq!(buffer.pop_word(), 0x00FF);
    assert!(!buffer.is_exhausted());
    assert_eq!(buffer.pop_word(), 0xFF00);
    assert!(buffer.is_exhausted());
    assert_eq!(buffer.pop_word(), 0);
    buffer.clear();
    assert!(buffer.is_empty());
    assert_eq!(buffer.capacity(), 6);
}

#[test]
fn buffer_refill_takes_what_fits() {
    let mut buffer = Buffer::with_capacity(4);
    assert_eq!(buffer.refill(vec![1, 2, 3]), 3);
    assert_eq!(buffer.pop_word(), 0x0201);
    assert_eq!(buffer.pop_word(), 0x0003);
    assert!(buffer.is_exhausted());
    assert_eq!(buffer.refill(vec![1, 2, 3, 4, 5, 6]), 4);
    assert_eq!(buffer.contents(), vec![1, 2, 3, 4]);
    assert!(!buffer.is_exhausted());
    assert_eq!(buffer.refill(Vec::new()), 0);
    assert!(buffer.is_exhausted());
    assert_eq!(Buffer::new().capacity(), BUFFER_SIZE);
    assert_eq!(BUFFER_SIZE, 10240);
}

#[test]
fn lookup_and_deletion_outcomes() {
    assert_eq!(is_file_exists(Ok(())), Ok(true));
    assert_eq!(is_file_exists(Err(ControllerError::FileNotFound)), Ok(false));
    assert_eq!(
        is_file_exists(Err(ControllerError::BadCluster)),
        Err(AppError::SdMmcController(ControllerError::BadCluster))
    );
    assert_eq!(delete_file(Ok(())), Ok(true));
    assert_eq!(delete_file(Err(ControllerError::FileNotFound)), Ok(false));
    assert_eq!(
        delete_file(Err(ControllerError::FileIsOpen)),
        Err(AppError::SdMmcController(ControllerError::FileIsOpen))
    );
}

#[test]
fn read_in_full_steps() {
    assert_eq!(try_read_all(0, 10, Ok(4)), Progress::Continue(4));
    assert_eq!(try_read_all(4, 10, Ok(5)), Progress::Continue(9));
    assert_eq!(try_read_all(9, 10, Ok(1)), Progress::Done(Ok(10)));
    assert_eq!(try_read_all(4, 10, Ok(0)), Progress::Done(Ok(4)));
    assert_eq!(try_read_all(4, 10, Ok(usize::MAX)), Progress::Done(Ok(10)));
    assert_eq!(try_read_all(10, 10, Ok(0)), Progress::Done(Ok(10)));
    assert_eq!(
        try_read_all(4, 10, Err(AppError::SdMmcController(ControllerError::EndOfFile))),
        Progress::Done(Ok(4))
    );
    assert_eq!(
        try_read_all(4, 10, Err(AppError::SdMmcSpi(SpiError::ReadError))),
        Progress::Done(Err(AppError::SdMmcSpi(SpiError::ReadError)))
    );
}

#[test]
fn write_in_full_steps() {
    assert_eq!(write_all(0, 10, Ok(4)), Progress::Continue(4));
    assert_eq!(write_all(4, 10, Ok(0)), Progress::Continue(4));
    assert_eq!(write_all(4, 10, Ok(6)), Progress::Done(Ok(10)));
    assert_eq!(write_all(4, 10, Ok(usize::MAX)), Progress::Done(Ok(10)));
    assert_eq!(write_all(0, 0, Ok(0)), Progress::Done(Ok(0)));
    assert_eq!(
        write_all(4, 10, Err(AppError::SdMmcController(ControllerError::NotEnoughSpace))),
        Progress::Done(Err(AppError::SdMmcController(ControllerError::NotEnoughSpace)))
    );
}

#[test]
fn copy_steps() {
    assert_eq!(copy_file(Ok(64)), CopyStep::Write(64));
    assert_eq!(copy_file(Ok(1)), CopyStep::Write(1));
    assert_eq!(copy_file(Ok(0)), CopyStep::Finish);
    assert_eq!(copy_file(Err(ControllerError::EndOfFile)), CopyStep::Finish);
    assert_eq!(
        copy_file(Err(ControllerError::BadCluster)),
        CopyStep::Fail(AppError::SdMmcController(ControllerError::BadCluster))
    );
}

#[test]
fn static_time_source() {
    let stamp = StaticTimeSource::default().get_timestamp();
    assert_eq!(stamp.year_since_1970, 53);
    assert_eq!(
        (stamp.zero_indexed_month, stamp.zero_indexed_day, stamp.hours, stamp.minutes, stamp.seconds),
        (0, 0, 0, 0, 0)
    );
}

#[test]
fn led_lights_on_a_low_pin() {
    let mut led = Led::new();
    assert!(!led.is_on() && led.pin_high());
    led.on();
    assert!(led.is_on() && !led.pin_high());
    led.on();
    assert!(led.is_on());
    led.off();
    assert!(!led.is_on() && led.pin_high());
}

#[test]
fn display_shows_six_bits() {
    let mut display = Display::new();
    for index in 0..6 {
        assert!(!display.is_on(index));
    }
    for value in [0u8, 1, 2, 0b101010, 0b010101, 63, 64, 0xFF, 0x80] {
        display.display(value);
        for index in 0..6 {
            assert_eq!(display.is_on(index), value & (1 << index) != 0);
        }
    }
}

#[test]
fn indicator_lamps() {
    let mut lamps = Indicators::new();
    let state = |lamps: &Indicators| {
        (lamps.is_system_error_on(), lamps.is_write_on(), lamps.is_read_on())
    };
    assert_eq!(state(&lamps), (false, false, false));
    lamps.system_error_on();
    assert_eq!(state(&lamps), (true, false, false));
    lamps.write_on();
    assert_eq!(state(&lamps), (true, true, false));
    lamps.read_on();
    assert_eq!(state(&lamps), (true, true, true));
    lamps.system_error_off();
    assert_eq!(state(&lamps), (false, true, true));
    lamps.write_off();
    assert_eq!(state(&lamps), (false, false, true));
    lamps.read_off();
    assert_eq!(state(&lamps), (false, false, false));
    lamps.all_on();
    assert_eq!(state(&lamps), (true, true, true));
    lamps.all_off();
    assert_eq!(state(&lamps), (false, false, false));
}

#[test]
fn first_key_held_counts() {
    assert_eq!(Keyboard::new(false, false, false, false, false).read_key(), None);
    assert_eq!(Keyboard::new(true, true, true, true, true).read_key(), Some(Key::StartWrite));
    assert_eq!(Keyboard::new(false, true, true, true, true).read_key(), Some(Key::StartRead));
    assert_eq!(Keyboard::new(false, false, true, true, true).read_key(), Some(Key::Step));
    assert_eq!(Keyboard::new(false, false, false, true, true).read_key(), Some(Key::Stop));
    assert_eq!(Keyboard::new(false, false, false, false, true).read_key(), Some(Key::Debug));
}

#[test]
fn debounce_reports_a_press_once() {
    let mut debounce = Debouncer::new();
    for tick in 1..MAX_DEBOUNCES {
        assert!(!debounce.tick(true));
        assert_eq!(debounce.debouncer, tick);
    }
    assert!(debounce.tick(true));
    assert_eq!(debounce.debouncer, MAX_DEBOUNCES);
    assert!(debounce.notified);
    assert!(!debounce.tick(true));
    assert_eq!(debounce.debouncer, MAX_DEBOUNCES - 1);
    assert!(!debounce.tick(true));
    assert_eq!(debounce.debouncer, MAX_DEBOUNCES);
    for _ in 0..MAX_DEBOUNCES {
        assert!(!debounce.tick(false));
    }
    assert_eq!(debounce, Debouncer { debouncer: 0, notified: false });
    assert!(!debounce.tick(false));
    for _ in 1..MAX_DEBOUNCES {
        assert!(!debounce.tick(true));
    }
    assert!(debounce.tick(true));
}

#[test]
fn bouncing_key_does_not_count() {
    let mut debounce = Debouncer::new();
    for _ in 0..100 {
        assert!(!debounce.tick(true));
        assert!(!debounce.tick(false));
    }
    assert_eq!(debounce.debouncer, 0);
}

#[test]
fn key_orders() {
    assert_eq!(keyboard_handler(Key::StartRead, true), (Order::StartRead { debug: true }, true));
    assert_eq!(keyboard_handler(Key::StartWrite, false), (Order::StartWrite { debug: false }, false));
    assert_eq!(keyboard_handler(Key::Step, true), (Order::Step, true));
    assert_eq!(keyboard_handler(Key::Stop, false), (Order::Stop, false));
    assert_eq!(
        keyboard_handler(Key::Debug, false),
        (Order::SetDebug { debug: true, transfers: 10 }, true)
    );
    assert_eq!(
        keyboard_handler(Key::Debug, true),
        (Order::SetDebug { debug: false, transfers: 65535 }, false)
    );
}

#[test]
fn card_detection() {
    assert_eq!(sdmmc_detect(AppState::NotReady, true), (AppState::Ready, Lamp::Off));
    assert_eq!(sdmmc_detect(AppState::NotReady, false), (AppState::NotReady, Lamp::Keep));
    assert_eq!(sdmmc_detect(AppState::Ready, true), (AppState::Ready, Lamp::Keep));
    assert_eq!(sdmmc_detect(AppState::Ready, false), (AppState::NotReady, Lamp::On));
}
