use pellxd::source::{ChoiceOfInputSource, DummyInputSource, GpioInputSource, InputSource, Reading};

#[test]
fn the_dummy_source_cycles() {
    let mut d = DummyInputSource::new(4, 2);
    assert_eq!(d.name(), "dummy");
    assert!(d.init().is_ok());
    let readings: Vec<Reading> = (0..8).map(|_| d.read()).collect();
    assert_eq!(readings, vec![Reading::Low, Reading::High, Reading::High, Reading::Low, Reading::Low, Reading::High, Reading::High, Reading::Low]);
    assert_eq!(d.counter, 8);
}

#[test]
fn the_dummy_source_checks_its_configuration() {
    assert_eq!(DummyInputSource::new(30, 15).sanity_check(), Ok(()));
    assert_eq!(DummyInputSource::new(3, 3).sanity_check(), Ok(()));
    assert_eq!(
        DummyInputSource::new(0, 0).sanity_check(),
        Err(vec!["Modulus may not be zero".to_string()])
    );
    assert_eq!(
        DummyInputSource::new(0, 1).sanity_check(),
        Err(vec![
            "Modulus may not be zero".to_string(),
            "Threshold may not be greater than modulus".to_string()
        ])
    );
    assert_eq!(
        DummyInputSource::new(2, 3).sanity_check(),
        Err(vec!["Threshold may not be greater than modulus".to_string()])
    );
}

#[test]
fn gpio_sources_are_named_and_checked() {
    let g = GpioInputSource::new(24);
    assert_eq!(g.name(), "GPIO24");
    assert_eq!(g.sanity_check(), Ok(()));
    assert_eq!(GpioInputSource::new(40).sanity_check(), Ok(()));
    assert_eq!(
        GpioInputSource::new(41).sanity_check(),
        Err(vec!["Invalid GPIO pin number: 41".to_string()])
    );
    assert_eq!(ChoiceOfInputSource::default(), ChoiceOfInputSource::Gpio);
}
