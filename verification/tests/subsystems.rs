use khzeb::runtime::{checked_read_subsystem_description, read_subsystem_description};
use wasmtime::{Config, Engine, Instance, Module, Store};

/// Runs a module and hands back its memory and what its `get_subsystem` returns.
fn run(wat: &str) -> (Vec<u8>, u32) {
    // Small reservations, so that the module runs where address space is scarce.
    let mut config = Config::new();
    config.memory_reservation(0);
    config.memory_reservation_for_growth(0);
    config.memory_guard_size(0);
    let engine = Engine::new(&config).unwrap();
    let module = Module::new(&engine, wat).unwrap();
    let mut store = Store::<()>::new(&engine, ());
    let instance = Instance::new(&mut store, &module, &[]).unwrap();
    let get_subsystem = instance
        .get_func(&mut store, "get_subsystem")
        .unwrap()
        .typed::<(), i32>(&mut store)
        .unwrap();
    let subsystem_ptr = get_subsystem.call(&mut store, ()).unwrap();
    let memory = instance.get_memory(&mut store, "memory").unwrap();
    (memory.data(&store).to_vec(), subsystem_ptr as u32)
}

#[test]
fn test_empty_subsystem() {
    let wat = r#"(module
  (type (;0;) (func (result i32)))
  (func (;0;) (type 0) (result i32)
    i32.const 1024)
  (memory (;0;) 2)
  (export "memory" (memory 0))
  (export "get_subsystem" (func 0))
  (data (;0;) (i32.const 1024) "\10\04\00\00\16\04")
  (data (;1;) (i32.const 1040) "Empty\00Does nothing"))
"#;

    let (memory, subsystem_ptr) = run(wat);
    let subsystem = read_subsystem_description(&memory, subsystem_ptr);
    println!("{:?}", subsystem);

    assert_eq!(subsystem_ptr, 1024);
    assert_eq!(subsystem.name(), "Empty");
    assert_eq!(subsystem.brief(), "Does nothing");
    assert_eq!(checked_read_subsystem_description(&memory, subsystem_ptr), Some(subsystem));
}
