use scraptor::backend::MockDuplication;
use scraptor::driver::dxgi::display::DxgiDisplays;
use scraptor::driver::dxgi::errors::EnumerationError;
use scraptor::driver::dxgi::Dxgi;
use scraptor::topology::{DisplayScript, MockAdapter, MockFactory, OutputDesc, OutputSlot};

fn memory_session() -> MockDuplication {
    MockDuplication::new(true, 4, 1, 2)
}

fn output(name: &str, left: i32, top: i32, right: i32, bottom: i32) -> OutputSlot {
    OutputSlot::Good(DisplayScript {
        desc: OutputDesc { name: String::from(name), left, top, right, bottom },
        session: memory_session(),
    })
}

fn uniform_factory(adapters: usize, outputs: usize) -> MockFactory {
    let mut all = Vec::new();
    for a in 0..adapters {
        let mut slots = Vec::new();
        for o in 0..outputs {
            let name = format!("display-{}-{}", a, o);
            slots.push(output(&name, 0, 0, 1920, 1080));
        }
        all.push(MockAdapter { outputs: slots });
    }
    MockFactory { adapters: all }
}

#[test]
fn dxgi_test_next_dxgi_display() {
    let mut displays = DxgiDisplays::new(uniform_factory(2, 2));
    while let Some(display) = displays.next() {
        let display = display.unwrap();

        println!(
            "`{}` w:{}, h:{}",
            display.name(),
            display.width(),
            display.height()
        );
    }
}

#[test]
fn test_get_all() {}

#[test]
fn display_test_next_dxgi_display() {
    let mut displays = DxgiDisplays::new(uniform_factory(1, 3));
    while let Some(display) = displays.next() {
        let display = display.unwrap();

        println!(
            "`{}` w:{}, h:{}",
            display.name(),
            display.width(),
            display.height()
        );
    }
}

#[test]
fn enumeration_yields_adapter_major_output_minor() {
    // Two adapters with three outputs each: exactly 2 x 3 displays, in
    // adapter-major, output-minor order, then termination.
    let mut displays = DxgiDisplays::new(uniform_factory(2, 3));
    let mut names = Vec::new();
    while let Some(display) = displays.next() {
        names.push(display.unwrap().name());
    }
    assert_eq!(
        names,
        vec![
            "display-0-0",
            "display-0-1",
            "display-0-2",
            "display-1-0",
            "display-1-1",
            "display-1-2",
        ]
    );
}

#[test]
fn enumeration_of_zero_adapters_is_empty() {
    let mut displays = DxgiDisplays::new(MockFactory::new());
    assert!(displays.next().is_none());
    assert!(displays.next().is_none());
}

#[test]
fn enumeration_skips_adapters_without_outputs() {
    let factory = MockFactory {
        adapters: vec![
            MockAdapter { outputs: vec![] },
            MockAdapter { outputs: vec![output("only", 0, 0, 800, 600)] },
            MockAdapter { outputs: vec![] },
        ],
    };
    let mut displays = DxgiDisplays::new(factory);
    let display = displays.next().unwrap().unwrap();
    assert_eq!(display.name(), "only");
    assert_eq!(display.width(), 800);
    assert_eq!(display.height(), 600);
    assert!(displays.next().is_none());
}

#[test]
fn enumeration_surfaces_backend_failure() {
    let factory = MockFactory {
        adapters: vec![MockAdapter {
            outputs: vec![output("good", 0, 0, 10, 10), OutputSlot::Faulty(0x8000_4005)],
        }],
    };
    let mut displays = DxgiDisplays::new(factory);
    assert!(displays.next().unwrap().is_ok());
    let err = displays.next().unwrap().unwrap_err();
    match err {
        EnumerationError::Backend(e) => assert_eq!(e.code, 0x8000_4005),
        other => panic!("expected a backend error, got {:?}", other),
    }
}

#[test]
fn enumeration_rejects_invalid_descriptor() {
    // right < left: the descriptor is invalid and enumeration must fail.
    let factory = MockFactory {
        adapters: vec![MockAdapter { outputs: vec![output("bad", 100, 0, 0, 50)] }],
    };
    let mut displays = DxgiDisplays::new(factory);
    let err = displays.next().unwrap().unwrap_err();
    assert!(matches!(err, EnumerationError::InvalidDescriptor));
}

#[test]
fn get_all_collects_every_display() {
    let driver = Dxgi;
    let all = driver.get_all(uniform_factory(3, 2)).unwrap();
    assert_eq!(all.len(), 6);
    assert_eq!(all[0].name(), "display-0-0");
    assert_eq!(all[5].name(), "display-2-1");
}

#[test]
fn get_all_of_zero_adapters_is_ok_and_empty() {
    let driver = Dxgi;
    let all = driver.get_all(MockFactory::new()).unwrap();
    assert!(all.is_empty());
}

#[test]
fn get_primary_is_first_display() {
    let driver = Dxgi;
    let primary = driver.get_primary(uniform_factory(2, 2)).unwrap().unwrap();
    assert_eq!(primary.name(), "display-0-0");
    assert!(driver.get_primary(MockFactory::new()).unwrap().is_none());
}

#[test]
fn driver_name_is_dxgi() {
    let drivers = scraptor::drivers();
    assert_eq!(drivers.len(), 1);
    assert_eq!(drivers[0].name(), "dxgi");
}
