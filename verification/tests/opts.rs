use nvim_oxi::opts::{
    BufDeleteOpts, CreateCommandOpts, GetContextOpts, OptionValueOpts, SetHighlightOpts,
};
use nvim_oxi::{
    ClosureRegistry, CommandAddr, LuaFun, NvimString, Object, OptionScope,
};

#[test]
fn buf_delete_opts_build_and_wire_shape() {
    let opts = BufDeleteOpts::builder().force(true).build();
    let dict = opts.to_dictionary();
    assert_eq!(dict.len(), 1);
    assert_eq!(
        *dict.get(&NvimString::from_str("force")).unwrap(),
        Object::from_bool(true),
    );
    assert!(dict.get(&NvimString::from_str("unload")).is_none());

    let opts = BufDeleteOpts::builder().build();
    assert!(opts.to_dictionary().is_empty());

    let opts = BufDeleteOpts::builder().force(false).unload(true).build();
    let dict = opts.to_dictionary();
    assert_eq!(dict.len(), 2);
    assert_eq!(
        *dict.get(&NvimString::from_str("unload")).unwrap(),
        Object::from_bool(true),
    );
}

#[test]
fn create_command_opts_build_and_wire_shape() {
    let mut reg = ClosureRegistry::new();
    let preview: LuaFun<(), u8> = LuaFun::from_fn_mut(&mut reg);

    let opts = CreateCommandOpts::builder()
        .addr(CommandAddr::Windows)
        .bang(true)
        .desc("does a thing")
        .preview(&preview)
        .build();

    assert_eq!(opts.addr, Object::from("windows"));
    assert_eq!(opts.bang, Some(true));
    assert_eq!(opts.desc, Object::from("does a thing"));
    assert_eq!(opts.preview, Object::from_luaref(preview.luaref()));
    assert_eq!(opts.bar, None);
    assert!(opts.nargs.is_nil());

    let keydict = opts.to_keydict();
    assert_eq!(keydict.bang, Object::from_bool(true));
    assert!(keydict.bar.is_nil());
    assert_eq!(*keydict.addr.borrowed(), Object::from("windows"));
    assert_eq!(*keydict.desc.borrowed(), Object::from("does a thing"));
}

#[test]
fn get_context_opts_build_and_wire_shape() {
    let opts = GetContextOpts::builder()
        .types(vec![NvimString::from_str("regs"), NvimString::from_str("jumps")])
        .build();

    let arr = opts.types.clone().try_into_array().unwrap();
    assert_eq!(arr.len(), 2);
    let mut iter = arr.into_iter();
    assert_eq!(iter.next().unwrap(), Object::from("regs"));
    assert_eq!(iter.next().unwrap(), Object::from("jumps"));

    let keydict = opts.to_keydict();
    assert!(!keydict.types.borrowed().is_nil());
}

#[test]
fn option_value_opts_build_and_wire_shape() {
    let opts = OptionValueOpts::builder().scope(OptionScope::Local).buffer(2).build();
    assert_eq!(opts.scope, Object::from("local"));
    assert_eq!(opts.buffer, Some(2));
    assert_eq!(opts.window, None);

    let keydict = opts.to_keydict();
    assert_eq!(keydict.buf, Object::from_integer(2));
    assert!(keydict.win.is_nil());
    assert_eq!(*keydict.scope.borrowed(), Object::from("local"));

    let opts = OptionValueOpts::builder().scope(OptionScope::Global).build();
    assert_eq!(opts.scope, Object::from("global"));
}

#[test]
fn set_highlight_opts_build_and_wire_shape() {
    let opts = SetHighlightOpts::builder()
        .fg("red")
        .bg("blue")
        .bold(true)
        .italic(false)
        .blend(10)
        .cterm("underline")
        .build();

    assert_eq!(opts.fg, Object::from("red"));
    assert_eq!(opts.bg, Object::from("blue"));
    assert_eq!(opts.bold, Some(true));
    assert_eq!(opts.italic, Some(false));
    assert_eq!(opts.blend, Some(10));
    assert_eq!(opts.underline, None);

    let keydict = opts.to_keydict();
    assert_eq!(*keydict.fg.borrowed(), Object::from("red"));
    assert_eq!(*keydict.bg.borrowed(), Object::from("blue"));
    assert_eq!(keydict.bold, Object::from_bool(true));
    assert_eq!(keydict.italic, Object::from_bool(false));
    assert_eq!(keydict.blend, Object::from_integer(10));
    assert!(keydict.underline.is_nil());
    assert!(keydict.sp.is_nil());
    assert!(keydict.fallback.is_nil());
}

#[test]
fn setters_leave_other_fields_alone() {
    let b = SetHighlightOpts::builder().fg("red");
    let b = b.reverse(true);
    let b = b.strikethrough(false);
    let opts = b.build();
    assert_eq!(opts.fg, Object::from("red"));
    assert_eq!(opts.reverse, Some(true));
    assert_eq!(opts.strikethrough, Some(false));
    assert_eq!(opts.bold, None);
}
