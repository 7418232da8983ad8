use nes::cpu::CPU;

#[test]
fn test0() {
    let c = CPU::test();
    println!("{:#?}", c);
}
