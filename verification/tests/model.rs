use vk_generator::InternedRef;
use vk_generator::VkCommand;
use vk_generator::VkElType;
use vk_generator::VkExtn;
use vk_generator::VkFeature;
use vk_generator::VkInterface;
use vk_generator::VkMember;
use vk_generator::VkParam;
use vk_generator::VkRegistry;
use vk_generator::VkReqRem;
use vk_generator::VkType;
use vk_generator::VkVariant;
use vk_generator::VkVersion;

fn at(start: usize, len: usize) -> InternedRef {
    InternedRef::Span { start, len }
}

#[test]
fn an_element_starts_unknown_and_is_composed_step_by_step() {
    let name = at(0, 4);
    let mut el = VkElType::Unknown;
    assert_eq!(el.type_ptr(), None);
    el.set_type(name);
    assert_eq!(el, VkElType::Var(name));
    assert_eq!(el.type_ptr(), Some(name));
    el.make_const();
    assert_eq!(el, VkElType::Const(name));
    el.make_const();
    assert_eq!(el, VkElType::Const(name));
    el.make_ptr(2);
    assert_eq!(el, VkElType::ConstPtr(name, 2));
    el.set_type(at(4, 2));
    assert_eq!(el, VkElType::ConstPtr(at(4, 2), 2));
}

#[test]
fn const_before_the_type_name_is_kept() {
    let mut el = VkElType::Unknown;
    el.make_const();
    assert_eq!(el, VkElType::empty_const());
    assert_eq!(el, VkElType::Const(InternedRef::Null));
    el.set_type(at(3, 3));
    assert_eq!(el, VkElType::Const(at(3, 3)));
    let mut void = VkElType::Void;
    void.make_const();
    assert_eq!(void, VkElType::Const(InternedRef::Null));
    let mut array = VkElType::ConstArray(at(3, 3), 4);
    array.make_const();
    assert_eq!(array, VkElType::ConstArray(at(3, 3), 4));
    let mut named = VkElType::ConstArrayEnum(at(3, 3), at(6, 2));
    named.make_const();
    assert_eq!(named, VkElType::ConstArrayEnum(at(3, 3), at(6, 2)));
}

#[test]
fn pointers_and_arrays_take_their_mutability_from_the_element() {
    let name = at(1, 1);
    let mut el = VkElType::Var(name);
    el.make_ptr(1);
    assert_eq!(el, VkElType::MutPtr(name, 1));
    let mut el = VkElType::Unknown;
    el.make_ptr(3);
    assert_eq!(el, VkElType::MutPtr(InternedRef::Null, 3));
    let mut el = VkElType::Void;
    el.make_ptr(1);
    assert_eq!(el, VkElType::MutPtr(InternedRef::Null, 1));
    let mut el = VkElType::Var(name);
    el.make_array(4);
    assert_eq!(el, VkElType::MutArray(name, 4));
    let mut el = VkElType::Const(name);
    el.make_array(4);
    assert_eq!(el, VkElType::ConstArray(name, 4));
    let mut el = VkElType::Var(name);
    el.make_array(0);
    assert_eq!(el, VkElType::MutArrayEnum(name, InternedRef::Null));
    el.set_array_const(at(9, 9));
    assert_eq!(el, VkElType::MutArrayEnum(name, at(9, 9)));
    let mut el = VkElType::Const(name);
    el.make_array(0);
    el.set_array_const(at(9, 9));
    assert_eq!(el, VkElType::ConstArrayEnum(name, at(9, 9)));
    assert_eq!(el.type_ptr(), Some(name));
    let mut el = VkElType::Unknown;
    el.make_void();
    assert_eq!(el, VkElType::Void);
    assert_eq!(el.type_ptr(), None);
}

#[test]
fn nodes_start_empty() {
    let m = VkMember::empty(true);
    assert_eq!(m, VkMember { field_type: VkElType::Unknown, field_name: InternedRef::Null, optional: true });
    let mut m = VkMember::empty(false);
    m.set_name(at(0, 1));
    m.set_type(at(1, 1));
    assert_eq!(m.field_name, at(0, 1));
    assert_eq!(m.type_ptr(), Some(at(1, 1)));
    assert!(!m.optional);
    let p = VkParam::empty();
    assert_eq!(p, VkParam { typ: VkElType::Unknown, name: InternedRef::Null });
    let c = VkCommand::empty();
    assert_eq!(c.ret, VkElType::Unknown);
    assert!(c.name.is_null() && c.params.is_empty());
}

#[test]
fn variants_keep_their_value_when_renamed() {
    let mut v = VkVariant::new_value(at(0, 2), -5);
    assert_eq!(v.name(), at(0, 2));
    v.set_name(at(2, 2));
    assert_eq!(v, VkVariant::Value { name: at(2, 2), value: -5 });
    let mut b = VkVariant::new_bitpos(at(0, 2), 7);
    b.set_name(InternedRef::Null);
    assert_eq!(b, VkVariant::Bitpos { name: InternedRef::Null, bitpos: 7 });
}

#[test]
fn types_are_made_and_renamed() {
    let n = at(0, 3);
    assert!(matches!(VkType::new_struct(n), VkType::Struct { name, ref fields } if name == n && fields.is_empty()));
    assert!(matches!(VkType::new_union(n), VkType::Union { name, ref variants } if name == n && variants.is_empty()));
    assert!(matches!(VkType::new_enum(n), VkType::Enum { name, ref variants } if name == n && variants.is_empty()));
    assert!(matches!(VkType::new_bitmask(n), VkType::Bitmask { name, ref variants } if name == n && variants.is_empty()));
    assert!(matches!(VkType::empty_handle(), VkType::Handle { name: InternedRef::Null, dispatchable: true }));
    assert!(matches!(
        VkType::new_typedef(Some(n)),
        VkType::TypeDef { typ: InternedRef::Null, name: InternedRef::Null, requires } if requires == n
    ));
    assert!(matches!(VkType::new_typedef(None), VkType::TypeDef { requires: InternedRef::Null, .. }));
    assert!(matches!(VkType::new_const(n, at(3, 1)), VkType::ApiConst { name, value } if name == n && value == at(3, 1)));
    assert!(matches!(VkType::new_define(n), VkType::Define { name } if name == n));
    assert!(matches!(VkType::empty_define(), VkType::Define { name: InternedRef::Null }));
    assert!(matches!(
        VkType::empty_funcpointer(),
        VkType::FuncPointer { name: InternedRef::Null, ret: VkElType::Unknown, ref params } if params.is_empty()
    ));
    assert!(matches!(VkType::new_extern(n, at(5, 5)), VkType::ExternType { name, requires } if name == n && requires == at(5, 5)));
    let mut t = VkType::new_struct(n);
    assert_eq!(t.name(), Some(n));
    assert_eq!(t.set_name(at(7, 7)), Ok(()));
    assert_eq!(t.name(), Some(at(7, 7)));
    let mut u = VkType::Unhandled;
    assert_eq!(u.name(), None);
    assert_eq!(u.set_name(n), Err(()));
    assert!(matches!(u, VkType::Unhandled));
}

#[test]
fn interfaces_go_to_the_list_that_the_block_names() {
    let profile = at(0, 4);
    let mut feature = VkFeature::new(at(4, 4), VkVersion(1, 0));
    feature.push_command(at(8, 1), &VkReqRem::Require(None));
    feature.push_type(at(9, 1), &VkReqRem::Remove(Some(profile)));
    feature.push_const(at(10, 1), &VkReqRem::Require(Some(profile)));
    assert_eq!(
        feature.require,
        [
            VkInterface::Command { name: at(8, 1), profile: InternedRef::Null },
            VkInterface::ApiConst { name: at(10, 1), profile },
        ]
    );
    assert_eq!(feature.remove, [VkInterface::Type { name: at(9, 1), profile }]);
    let mut extn = VkExtn::new(at(4, 4), 17);
    assert_eq!(extn.num, 17);
    let variant = VkVariant::new_bitpos(at(1, 1), 3);
    extn.push_enum(variant, Some(at(2, 2)), &VkReqRem::Require(None));
    extn.push_enum(variant, None, &VkReqRem::Remove(None));
    extn.push_const(at(3, 1), at(4, 1), &VkReqRem::Require(None));
    extn.push_command(at(5, 1), &VkReqRem::Require(None));
    extn.push_type(at(6, 1), &VkReqRem::Require(None));
    extn.push_api_const(at(7, 1), &VkReqRem::Require(None));
    assert_eq!(
        extn.require,
        [
            VkInterface::ExtnEnum { extends: at(2, 2), profile: InternedRef::Null, variant },
            VkInterface::ConstDef { name: at(3, 1), value: at(4, 1), profile: InternedRef::Null },
            VkInterface::Command { name: at(5, 1), profile: InternedRef::Null },
            VkInterface::Type { name: at(6, 1), profile: InternedRef::Null },
            VkInterface::ApiConst { name: at(7, 1), profile: InternedRef::Null },
        ]
    );
    assert_eq!(
        extn.remove,
        [VkInterface::ExtnEnum { extends: InternedRef::Null, profile: InternedRef::Null, variant }]
    );
    assert_eq!(
        VkInterface::new_extn_enum(variant, Some(at(1, 1)), Some(profile)),
        VkInterface::ExtnEnum { extends: at(1, 1), profile, variant }
    );
    assert_eq!(VkInterface::new_type(at(1, 1), None), VkInterface::Type { name: at(1, 1), profile: InternedRef::Null });
    assert_eq!(
        VkInterface::new_const_def(at(1, 1), at(2, 1), Some(profile)),
        VkInterface::ConstDef { name: at(1, 1), value: at(2, 1), profile }
    );
}

#[test]
fn the_registry_refuses_what_cannot_be_registered() {
    let mut registry = VkRegistry::with_capacity(64);
    assert_eq!(registry.buffer_cap(), 64);
    let a = registry.append_str("VkA");
    let reserved = registry.append_str("API Constants");
    let c = registry.append_str("VK_C");
    let v = registry.append_str("1");
    assert_eq!(registry.push_type(VkType::Unhandled), Err(()));
    assert_eq!(registry.push_type(VkType::new_enum(reserved)), Err(()));
    assert_eq!(registry.push_type(VkType::new_enum(at(60, 10))), Err(()));
    assert!(registry.types().is_empty());
    assert_eq!(registry.push_type(VkType::new_enum(a)), Ok(()));
    assert_eq!(registry.push_type(VkType::new_const(c, v)), Ok(()));
    assert_eq!(registry.push_type(VkType::new_const(reserved, v)), Err(()));
    assert_eq!(registry.core_consts(), &vec![c, reserved]);
    assert_eq!(registry.types().len(), 2);
    assert_eq!(registry.find_type(b"VkA"), Some(0));
    assert_eq!(registry.find_type(b"VK_C"), Some(1));
    assert_eq!(registry.find_type(b"VkB"), None);
    assert_eq!(registry.push_type(VkType::new_struct(a)), Ok(()));
    assert_eq!(registry.types().len(), 2);
    assert!(matches!(registry.types()[0], VkType::Struct { .. }));
    assert_eq!(registry.push_type(VkType::new_struct(InternedRef::Null)), Ok(()));
    assert_eq!(registry.find_type(b""), Some(2));
    assert!(registry.holds(a) && registry.holds(InternedRef::Null) && !registry.holds(at(60, 10)));
    assert_eq!(registry.try_append(&[b'x'; 64]), None);
    assert_eq!(registry.text(a), b"VkA");
}

#[test]
fn a_command_loses_the_unknown_parameters_at_its_end() {
    let mut registry = VkRegistry::with_capacity(64);
    let name = registry.append_str("vkDo");
    let ty = registry.append_str("int");
    let mut command = VkCommand::empty();
    command.name = name;
    command.ret = VkElType::Void;
    command.params.push(VkParam { typ: VkElType::Unknown, name: InternedRef::Null });
    command.params.push(VkParam { typ: VkElType::Var(ty), name: InternedRef::Null });
    command.params.push(VkParam::empty());
    command.params.push(VkParam::empty());
    assert_eq!(registry.push_command(Some(command)), Ok(()));
    assert_eq!(registry.push_command(None), Err(()));
    let stored = &registry.commands()[registry.find_command(b"vkDo").unwrap()];
    assert_eq!(stored.params.len(), 2);
    assert_eq!(stored.params[1].typ, VkElType::Var(ty));
    let mut only_unknown = VkCommand::empty();
    only_unknown.name = ty;
    only_unknown.params.push(VkParam::empty());
    assert_eq!(registry.push_command(Some(only_unknown)), Ok(()));
    assert!(registry.commands()[1].params.is_empty());
    let mut stray = VkCommand::empty();
    stray.name = at(100, 1);
    assert_eq!(registry.push_command(Some(stray)), Err(()));
    assert_eq!(registry.commands().len(), 2);
}

#[test]
fn features_and_extensions_are_registered_under_their_keys() {
    let mut registry = VkRegistry::with_capacity(64);
    let name = registry.append_str("VK_KHR_surface");
    assert_eq!(registry.push_feature(None), Err(()));
    assert_eq!(registry.push_extn(None), Err(()));
    assert_eq!(registry.push_feature(Some(VkFeature::new(name, VkVersion(1, 0)))), Ok(()));
    assert_eq!(registry.push_feature(Some(VkFeature::new(name, VkVersion(1, 1)))), Ok(()));
    assert_eq!(registry.push_feature(Some(VkFeature::new(InternedRef::Null, VkVersion(1, 0)))), Ok(()));
    assert_eq!(registry.features().len(), 2);
    assert!(registry.features()[0].name.is_null());
    assert_eq!(registry.find_feature(VkVersion(1, 1)), Some(1));
    assert_eq!(registry.find_feature(VkVersion(2, 0)), None);
    assert_eq!(registry.push_extn(Some(VkExtn::new(name, 1))), Ok(()));
    assert_eq!(registry.push_extn(Some(VkExtn::new(name, 2))), Ok(()));
    assert_eq!(registry.push_extn(Some(VkExtn::new(at(90, 2), 3))), Err(()));
    assert_eq!(registry.extns().len(), 1);
    assert_eq!(registry.extns()[0].num, 2);
    assert_eq!(registry.find_extn(b"VK_KHR_surface"), Some(0));
}
