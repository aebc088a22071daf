use qr_encode::module::{Module, ModuleType};

#[test]
fn byte_size() {
    assert_eq!(std::mem::size_of::<Module>(), 1);
}

#[test]
fn data() {
    let module = Module::data(Module::LIGHT);
    assert_eq!(module.module_type(), ModuleType::Data);
}

#[test]
fn finder_pattern() {
    let module = Module::finder_pattern(Module::LIGHT);
    assert_eq!(module.module_type(), ModuleType::FinderPattern);
}

#[test]
fn alignment() {
    let module = Module::alignment(Module::LIGHT);
    assert_eq!(module.module_type(), ModuleType::Alignment);
}

#[test]
fn timing() {
    let module = Module::timing(Module::LIGHT);
    assert_eq!(module.module_type(), ModuleType::Timing);
}

#[test]
fn format() {
    let module = Module::format(Module::LIGHT);
    assert_eq!(module.module_type(), ModuleType::Format);
}

#[test]
fn version() {
    let module = Module::version(Module::LIGHT);
    assert_eq!(module.module_type(), ModuleType::Version);
}

#[test]
fn dark() {
    let module = Module::dark(Module::LIGHT);
    assert_eq!(module.module_type(), ModuleType::DarkModule);
}

#[test]
fn value_light() {
    let module = Module::data(Module::LIGHT);
    assert_eq!(module.value(), Module::LIGHT);
}

#[test]
fn value_dark() {
    let module = Module::data(Module::DARK);
    assert_eq!(module.value(), Module::DARK);
}

#[test]
fn set() {
    let mut module = Module::data(Module::LIGHT);
    module.set(Module::DARK);
    assert_eq!(module.value(), Module::DARK);
}

#[test]
fn toggle_flips_only_color() {
    let mut module = Module::timing(Module::DARK);
    module.toggle();
    assert_eq!(module.value(), Module::LIGHT);
    assert_eq!(module.module_type(), ModuleType::Timing);
    module.toggle();
    assert_eq!(module.value(), Module::DARK);
    assert_eq!(module.module_type(), ModuleType::Timing);
}

#[test]
fn new_packs_role_and_color() {
    let module = Module::new(true, ModuleType::Empty);
    assert_eq!(module.0, 15);
    let module = Module::new(false, ModuleType::Data);
    assert_eq!(module.0, 0);
}

#[test]
fn empty_role() {
    let module = Module::empty(Module::DARK);
    assert_eq!(module.module_type(), ModuleType::Empty);
    assert_eq!(module.value(), Module::DARK);
}
