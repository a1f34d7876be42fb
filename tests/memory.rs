use yayachip8rsemu::error::Chip8Error;
use yayachip8rsemu::memory::Memory;
use yayachip8rsemu::stack::Stack;
use yayachip8rsemu::state::Breakpoint;

#[test]
fn memory_read_write() {
    let mut m = Memory::new();
    assert_eq!(m.len(), 4096);
    m.write(0x10, &[0x12, 0x34, 0x56]);
    assert_eq!(m.read(0x10, 3), vec![0x12, 0x34, 0x56]);
    assert_eq!(m.read_t(0x10, 2), 0x1234);
    assert_eq!(m.read_t(0x10, 3), 0x123456);
    assert_eq!(m.read_t(0x11, 1), 0x34);
    assert_eq!(m.read_t(0x10, 0), 0);
    let v = Memory::from_vec(vec![9, 8]);
    assert_eq!(v.read(0, 3), vec![9, 8, 0]);
}

#[test]
fn stack_push_pop() {
    let mut s = Stack::new();
    assert_eq!(s.pop(), Err(Chip8Error::StackUnderflow));
    for i in 0..16u16 {
        assert_eq!(s.push(i), Ok(()));
    }
    assert_eq!(s.push(99), Err(Chip8Error::StackOverflow));
    assert_eq!(s.len(), 16);
    assert_eq!(s.pop(), Ok(15));
    assert_eq!(s.pop(), Ok(14));
    assert_eq!(s.len(), 14);
}

#[test]
fn breakpoint_equality() {
    assert_eq!(Breakpoint::new(0x200), Breakpoint::new(0x200));
    assert_ne!(Breakpoint::new(0x200), Breakpoint::new(0x202));
}
