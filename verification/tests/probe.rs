use inspector::probe::exit_probe_program;

#[test]
fn probe_names_the_process_and_the_exit_entry() {
    assert_eq!(exit_probe_program(4242), "pid4242::__exit:entry{stop(); exit(0)}");
    assert_eq!(exit_probe_program(1), "pid1::__exit:entry{stop(); exit(0)}");
    assert_eq!(exit_probe_program(0), "pid0::__exit:entry{stop(); exit(0)}");
    assert_eq!(exit_probe_program(10), "pid10::__exit:entry{stop(); exit(0)}");
}

#[test]
fn probe_writes_the_pid_in_decimal() {
    for pid in [7, 99, 100, 65535, 123456789, i32::MAX, -1, -10, i32::MIN] {
        assert_eq!(
            exit_probe_program(pid),
            format!("pid{}::__exit:entry{{stop(); exit(0)}}", pid)
        );
    }
    assert_eq!(exit_probe_program(i32::MIN), "pid-2147483648::__exit:entry{stop(); exit(0)}");
}
