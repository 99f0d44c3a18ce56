use bootloader::console::{ConsoleWriter, MAX_COLUMNS, MAX_ROWS};
use bootloader::pci::{Device, Pci, PciIterator, PciScan, Probe};

/// Configuration space of a small machine: on bus 0 a single-function host
/// bridge at device 0, a multi-function device 1 (functions 0, 1 and a
/// PCI-to-PCI bridge to bus 2 at function 3); on bus 2 one device at 4.
fn probe(d: Device) -> Probe {
    let absent = Probe { vendor: 0xffff_ffff, class: 0xffff_ffff, header: 0xffff_ffff, bus_numbers: 0xffff_ffff };
    match (d.bus(), d.device(), d.function()) {
        (0, 0, 0) => Probe { vendor: 0x1237_8086, class: 0x0600_0000, header: 0, bus_numbers: 0 },
        (0, 1, 0) => Probe { vendor: 0x7000_8086, class: 0x0601_0000, header: 0x0080_0000, bus_numbers: 0 },
        (0, 1, 1) => Probe { vendor: 0x7010_8086, class: 0x0101_8000, header: 0, bus_numbers: 0 },
        (0, 1, 3) => Probe { vendor: 0x7113_8086, class: 0x0604_0000, header: 0x0001_0000, bus_numbers: 0x0002_0200 },
        (2, 4, 0) => Probe { vendor: 0x100e_8086, class: 0x0200_0000, header: 0, bus_numbers: 0 },
        _ => absent,
    }
}

fn scan() -> Pci {
    let mut scan = PciScan::new();
    let mut probes = 0;
    while let Some(d) = scan.next_probe() {
        scan.record(probe(d));
        probes += 1;
    }
    // 32 devices on each of the two buses, seven more functions of device 1
    assert_eq!(probes, 32 + 7 + 32);
    Pci::new(scan)
}

#[test]
fn bus_scan_follows_bridges() {
    let pci = scan();
    assert_eq!(pci.size(), 5);
    let found: Vec<(u8, u8, u8)> = (0..pci.size())
        .map(|i| pci.get(i).unwrap())
        .map(|d| (d.bus(), d.device(), d.function()))
        .collect();
    assert_eq!(found, vec![(0, 0, 0), (0, 1, 0), (0, 1, 1), (0, 1, 3), (2, 4, 0)]);
    assert!(pci.get(5).is_none());
}

#[test]
fn iterator_walks_the_table() {
    let pci = scan();
    let mut it: PciIterator = pci.iter();
    let mut n = 0;
    while let Some(d) = it.next() {
        assert_eq!(Some(d), pci.get(n));
        n += 1;
    }
    assert_eq!(n, 5);
    assert!(it.next().is_none());
    let mut again = PciIterator::new(scan());
    assert_eq!(again.next(), Some(Device::new(0, 0, 0)));
}

#[test]
fn empty_bus() {
    let mut scan = PciScan::new();
    assert_eq!(scan.next_probe(), Some(Device::new(0, 0, 0)));
    while let Some(d) = scan.next_probe() {
        scan.record(Probe { vendor: 0xffff, class: 0, header: 0, bus_numbers: 0 });
        assert_eq!(d.function(), 0);
    }
    assert_eq!(Pci::new(scan).size(), 0);
}

#[test]
fn console_writes_and_breaks_lines() {
    let mut c = ConsoleWriter::new();
    c.write("ab\ncd");
    assert_eq!(c.character_at(0, 0), 'a');
    assert_eq!(c.character_at(1, 0), 'b');
    assert_eq!(c.character_at(2, 0), '\0');
    assert_eq!(c.character_at(0, 1), 'c');
    assert_eq!(c.character_at(1, 1), 'd');
    assert_eq!(c.cursor(), (1, 2));
}

#[test]
fn console_wraps_full_rows() {
    let mut c = ConsoleWriter::new();
    let line: String = std::iter::repeat('x').take(MAX_COLUMNS).collect();
    c.write(&line);
    assert_eq!(c.cursor(), (0, MAX_COLUMNS));
    c.write_character('y');
    assert_eq!(c.character_at(0, 1), 'y');
    assert_eq!(c.cursor(), (1, 1));
}

#[test]
fn console_scrolls_at_the_bottom() {
    let mut c = ConsoleWriter::new();
    for i in 0..MAX_ROWS {
        let ch = char::from(b'a' + i as u8);
        c.write_character(ch);
        if i + 1 < MAX_ROWS {
            c.new_line();
        }
    }
    assert_eq!(c.character_at(0, MAX_ROWS - 1), 'y');
    c.write("\nz");
    assert_eq!(c.character_at(0, 0), 'b');
    assert_eq!(c.character_at(0, MAX_ROWS - 2), 'y');
    assert_eq!(c.character_at(0, MAX_ROWS - 1), 'z');
    assert_eq!(c.character_at(1, MAX_ROWS - 1), '\0');
    assert_eq!(c.cursor(), (MAX_ROWS - 1, 1));
}
