use network_launcher::port_file::{read_port_file, PortReading, PORT_FILE_NAME};

fn by_the_standard_library(contents: &str) -> PortReading {
    if !contents.ends_with('\n') {
        return PortReading::Pending;
    }
    match contents.trim().parse::<u16>() {
        Ok(port) => PortReading::Port(port),
        Err(_) => PortReading::Malformed,
    }
}

#[test]
fn finished_line_gives_the_port() {
    assert_eq!(read_port_file("8080\n"), PortReading::Port(8080));
    assert_eq!(read_port_file("0\n"), PortReading::Port(0));
    assert_eq!(read_port_file("65535\n"), PortReading::Port(65535));
}

#[test]
fn unfinished_line_is_pending() {
    assert_eq!(read_port_file(""), PortReading::Pending);
    assert_eq!(read_port_file("8"), PortReading::Pending);
    assert_eq!(read_port_file("808"), PortReading::Pending);
    assert_eq!(read_port_file("8080"), PortReading::Pending);
    assert_eq!(read_port_file("8080\r"), PortReading::Pending);
    assert_eq!(read_port_file("8080\n "), PortReading::Pending);
    assert_eq!(read_port_file("not a number"), PortReading::Pending);
}

#[test]
fn every_prefix_of_a_line_is_pending() {
    let line = "49152\n";
    let mut cut = 0;
    while cut < line.len() {
        assert_eq!(read_port_file(&line[..cut]), PortReading::Pending);
        cut += 1;
    }
    assert_eq!(read_port_file(line), PortReading::Port(49152));
}

#[test]
fn out_of_range_is_malformed() {
    assert_eq!(read_port_file("65536\n"), PortReading::Malformed);
    assert_eq!(read_port_file("70000\n"), PortReading::Malformed);
    assert_eq!(read_port_file("99999999999999999999999999\n"), PortReading::Malformed);
    assert_eq!(read_port_file("-1\n"), PortReading::Malformed);
}

#[test]
fn non_numeric_is_malformed() {
    assert_eq!(read_port_file("\n"), PortReading::Malformed);
    assert_eq!(read_port_file("   \n"), PortReading::Malformed);
    assert_eq!(read_port_file("abc\n"), PortReading::Malformed);
    assert_eq!(read_port_file("80a\n"), PortReading::Malformed);
    assert_eq!(read_port_file("80 80\n"), PortReading::Malformed);
    assert_eq!(read_port_file("8.0\n"), PortReading::Malformed);
    assert_eq!(read_port_file("0x50\n"), PortReading::Malformed);
    assert_eq!(read_port_file("+\n"), PortReading::Malformed);
    assert_eq!(read_port_file("++80\n"), PortReading::Malformed);
    assert_eq!(read_port_file("-0\n"), PortReading::Malformed);
    assert_eq!(read_port_file("\u{ff18}\u{ff10}\n"), PortReading::Malformed);
}

#[test]
fn white_space_around_the_number_is_ignored() {
    assert_eq!(read_port_file("  8080\n"), PortReading::Port(8080));
    assert_eq!(read_port_file("8080 \r\n"), PortReading::Port(8080));
    assert_eq!(read_port_file("\t8080\n\n"), PortReading::Port(8080));
    assert_eq!(read_port_file("\u{00a0}8080\u{3000}\n"), PortReading::Port(8080));
}

#[test]
fn sign_and_leading_zeros() {
    assert_eq!(read_port_file("+80\n"), PortReading::Port(80));
    assert_eq!(read_port_file("00080\n"), PortReading::Port(80));
    assert_eq!(read_port_file("0000000000000000000000065535\n"), PortReading::Port(65535));
    assert_eq!(read_port_file("+ 80\n"), PortReading::Malformed);
}

#[test]
fn every_port_reads_back() {
    let mut port: u32 = 0;
    while port <= 65535 {
        let contents = format!("{}\n", port);
        assert_eq!(read_port_file(&contents), PortReading::Port(port as u16));
        port += 1;
    }
}

#[test]
fn reading_agrees_with_the_standard_library() {
    let samples = [
        "", "\n", "1", "1\n", " 1 \n", "+1\n", "-1\n", "+\n", "-\n", "65535\n", "65536\n",
        "065535\n", "6553 5\n", "1\n2\n", "\r\n", "12\r\n", "\u{0085}12\u{2028}\n",
        "\u{200b}12\n", "12\u{feff}\n", "1_000\n", "1e3\n", "\u{0661}\n", "12\n\t", "+0\n",
        "++0\n", "+-0\n", " +7\n", "+ 7\n", "4294967296\n", "18446744073709551616\n",
    ];
    for contents in samples {
        assert_eq!(read_port_file(contents), by_the_standard_library(contents), "{:?}", contents);
    }
}

#[test]
fn port_file_has_its_name() {
    assert_eq!(PORT_FILE_NAME, "pocketic.port");
}
