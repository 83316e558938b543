use stepper_motor::state::Config;

#[test]
fn config_carries_chips_lines_and_step_interval() {
    let c = Config {
        chip1: String::from("/dev/gpiochip1"),
        chip3: String::from("/dev/gpiochip3"),
        switch_offsets: [14, 15],
        motor1_offsets: [13, 12],
        motor3_offsets: [19, 21],
        dt: 2000,
    };
    let copy = c.clone();
    assert_eq!(copy.chip1, "/dev/gpiochip1");
    assert_eq!(copy.chip3, "/dev/gpiochip3");
    assert_eq!(copy.switch_offsets, [14, 15]);
    assert_eq!(copy.motor1_offsets, [13, 12]);
    assert_eq!(copy.motor3_offsets, [19, 21]);
    assert_eq!(copy.dt, 2000);
}
