use rslean::constant_info::ConstantInfo;
use rslean::deserialize::Deserializer;
use rslean::expr::{BinderInfo, Expr};
use rslean::level::Level;
use rslean::literal::Literal;
use rslean::name::Name;
use rslean::olean::load_module_from_bytes;
use rslean::olean_error::OleanError;
use rslean::olean_header::HEADER_SIZE;
use rslean::region::{CompactedRegion, ObjRef};

/// Address of region position 0 when the file's base address is 0.
const BASE: u64 = HEADER_SIZE as u64;

fn ptr(pos: usize) -> u64 {
    BASE + pos as u64
}

fn scalar(v: u64) -> u64 {
    (v << 1) | 1
}

/// Lays out Lean objects the way the compactor does: each after its children.
struct Builder {
    data: Vec<u8>,
}

impl Builder {
    fn new() -> Self {
        Builder { data: vec![0u8; 8] }
    }

    fn pad(&mut self) {
        while self.data.len() % 8 != 0 {
            self.data.push(0);
        }
    }

    fn header(&mut self, num_objs: u8, tag: u8) -> usize {
        let pos = self.data.len();
        self.data.extend_from_slice(&1i32.to_le_bytes());
        self.data.extend_from_slice(&0u16.to_le_bytes());
        self.data.push(num_objs);
        self.data.push(tag);
        pos
    }

    fn ctor(&mut self, tag: u8, fields: &[u64], scalars: &[u8]) -> usize {
        let pos = self.header(fields.len() as u8, tag);
        for f in fields {
            self.data.extend_from_slice(&f.to_le_bytes());
        }
        self.data.extend_from_slice(scalars);
        self.pad();
        pos
    }

    fn string(&mut self, s: &str) -> usize {
        let pos = self.header(0, 249);
        let size = s.len() as u64 + 1;
        self.data.extend_from_slice(&size.to_le_bytes());
        self.data.extend_from_slice(&size.to_le_bytes());
        self.data.extend_from_slice(&(s.chars().count() as u64).to_le_bytes());
        self.data.extend_from_slice(s.as_bytes());
        self.data.push(0);
        self.pad();
        pos
    }

    fn array(&mut self, elems: &[u64]) -> usize {
        let pos = self.header(0, 246);
        self.data.extend_from_slice(&(elems.len() as u64).to_le_bytes());
        self.data.extend_from_slice(&(elems.len() as u64).to_le_bytes());
        for e in elems {
            self.data.extend_from_slice(&e.to_le_bytes());
        }
        pos
    }

    /// A `Name.str` cell on `prefix`.
    fn name_str(&mut self, prefix: u64, s: &str) -> usize {
        let sp = self.string(s);
        self.ctor(1, &[prefix, ptr(sp)], &[])
    }

    /// A `List` of the given elements.
    fn list(&mut self, elems: &[u64]) -> u64 {
        let mut tail = scalar(0);
        for e in elems.iter().rev() {
            tail = ptr(self.ctor(1, &[*e, tail], &[]));
        }
        tail
    }

    fn set_root(&mut self, pos: usize) {
        let raw = ptr(pos).to_le_bytes();
        self.data[0..8].copy_from_slice(&raw);
    }

    fn region(self) -> CompactedRegion {
        CompactedRegion::new(self.data, 0, false)
    }
}

fn name(parts: &[&str]) -> Name {
    let mut n = Name::anonymous();
    for p in parts {
        n = Name::mk_str(n, p);
    }
    n
}

#[test]
fn reads_hierarchical_names() {
    let mut b = Builder::new();
    let lean = b.name_str(scalar(0), "Lean");
    let meta = b.name_str(ptr(lean), "Meta");
    let num = b.ctor(2, &[ptr(meta), scalar(3)], &[]);
    let region = b.region();
    let mut d = Deserializer::new(&region);
    assert_eq!(d.deser_name(ObjRef::Ptr(meta)).to_string(), "Lean.Meta");
    let n = d.deser_name(ObjRef::Ptr(num));
    assert_eq!(n.to_string(), "Lean.Meta.3");
    // read again: the cached value is the same name
    assert!(d.deser_name(ObjRef::Ptr(num)) == n);
    assert!(d.deser_name(ObjRef::Scalar(0)).is_anonymous());
    assert!(d.deser_name(ObjRef::Null).is_anonymous());
}

#[test]
fn forward_pointers_and_unknown_tags_read_as_anonymous() {
    let mut b = Builder::new();
    // a str cell whose prefix points at itself
    let pos = b.data.len();
    let s = b.string("x");
    let _ = s;
    let cell = b.ctor(1, &[ptr(pos + 48), ptr(pos)], &[]);
    assert_eq!(cell, pos + 40);
    let odd = b.ctor(7, &[scalar(0), scalar(0)], &[]);
    let region = b.region();
    let mut d = Deserializer::new(&region);
    assert!(d.deser_name(ObjRef::Ptr(cell)).is_anonymous());
    assert!(d.deser_name(ObjRef::Ptr(odd)).is_anonymous());
}

#[test]
fn reads_levels_through_sorts() {
    let mut b = Builder::new();
    let u = b.name_str(scalar(0), "u");
    let param = b.ctor(4, &[ptr(u)], &[]);
    let one = b.ctor(1, &[scalar(0)], &[]);
    let max = b.ctor(2, &[ptr(param), ptr(one)], &[]);
    let sort = b.ctor(3, &[ptr(max)], &[]);
    let region = b.region();
    let mut d = Deserializer::new(&region);
    let e = d.deser_expr(ObjRef::Ptr(sort)).unwrap();
    let expected = Expr::sort(Level::max(
        Level::param(name(&["u"])),
        Level::succ(Level::zero()),
    ));
    assert!(e == expected);
}

#[test]
fn reads_applications_binders_and_literals() {
    let mut b = Builder::new();
    let nat = b.name_str(scalar(0), "Nat");
    let levels = b.list(&[]);
    let cst = b.ctor(4, &[ptr(nat), levels], &[]);
    let x = b.name_str(scalar(0), "x");
    let body = b.ctor(5, &[ptr(cst), scalar(0)], &[]);
    let lam = b.ctor(6, &[ptr(x), ptr(cst), ptr(body)], &[1]);
    let hello = b.string("hello");
    let lit_cell = b.ctor(1, &[ptr(hello)], &[]);
    let lit = b.ctor(9, &[ptr(lit_cell)], &[]);
    let app = b.ctor(5, &[ptr(lam), ptr(lit)], &[]);
    let region = b.region();
    let mut d = Deserializer::new(&region);
    let e = d.deser_expr(ObjRef::Ptr(app)).unwrap();
    let nat_e = Expr::const_(name(&["Nat"]), vec![]);
    let expected = Expr::app(
        Expr::lam(
            name(&["x"]),
            nat_e.clone(),
            Expr::app(nat_e, Expr::bvar(0)),
            BinderInfo::Implicit,
        ),
        Expr::lit(Literal::string("hello".to_string())),
    );
    assert!(e == expected);
    assert_eq!(e.to_string(), expected.to_string());
}

#[test]
fn expression_errors() {
    let mut b = Builder::new();
    let bad = b.ctor(12, &[scalar(0)], &[]);
    let forward_pos = b.data.len();
    let forward = b.ctor(5, &[ptr(forward_pos), scalar(0)], &[]);
    assert_eq!(forward, forward_pos);
    let region = b.region();
    let mut d = Deserializer::new(&region);
    match d.deser_expr(ObjRef::Null) {
        Err(e) => assert_eq!(e.message(), "deserialization error: null Expr"),
        Ok(_) => panic!("null is no expression"),
    }
    match d.deser_expr(ObjRef::Ptr(bad)) {
        Err(e) => assert_eq!(e.message(), "deserialization error: unknown Expr tag: 12"),
        Ok(_) => panic!("tag 12 is no expression"),
    }
    assert!(d.deser_expr(ObjRef::Ptr(forward)).is_err());
    // a scalar is a bound variable
    assert!(d.deser_expr(ObjRef::Scalar(4)).unwrap() == Expr::bvar(4));
}

#[test]
fn object_past_the_end_is_out_of_bounds() {
    let mut b = Builder::new();
    let pos = b.header(2, 5);
    let region = b.region();
    let mut d = Deserializer::new(&region);
    match d.deser_expr(ObjRef::Ptr(pos)) {
        Err(OleanError::OutOfBounds { pos: p, size }) => {
            assert_eq!(p, pos);
            assert_eq!(size, 16);
        }
        _ => panic!("expected an out-of-bounds error"),
    }
}

/// A module with one import and one axiom `Foo : Sort 0`.
fn module_region() -> Builder {
    let mut b = Builder::new();
    let init = b.name_str(scalar(0), "Init");
    let import = b.ctor(0, &[ptr(init)], &[1, 0, 0]);
    let imports = b.array(&[ptr(import)]);
    let foo = b.name_str(scalar(0), "Foo");
    let params = b.list(&[]);
    let sort = b.ctor(3, &[scalar(0)], &[]);
    let cv = b.ctor(0, &[ptr(foo), params, ptr(sort)], &[]);
    let val = b.ctor(0, &[ptr(cv)], &[0]);
    let info = b.ctor(0, &[ptr(val)], &[]);
    let names = b.array(&[ptr(foo)]);
    let constants = b.array(&[ptr(info)]);
    let extra = b.array(&[]);
    let root = b.ctor(
        0,
        &[ptr(imports), ptr(names), ptr(constants), ptr(extra), scalar(0)],
        &[1],
    );
    b.set_root(root);
    b
}

#[test]
fn reads_module_data() {
    let region = module_region().region();
    let mut d = Deserializer::new(&region);
    let m = d.read_module_data().unwrap();
    assert_eq!(m.imports.len(), 1);
    assert_eq!(m.imports[0].module.to_string(), "Init");
    assert!(m.imports[0].import_all);
    assert!(!m.imports[0].is_exported);
    assert_eq!(m.const_names.len(), 1);
    assert_eq!(m.const_names[0].to_string(), "Foo");
    assert_eq!(m.constants.len(), 1);
    match &m.constants[0] {
        ConstantInfo::Axiom { name, level_params, type_, is_unsafe } => {
            assert_eq!(name.to_string(), "Foo");
            assert!(level_params.is_empty());
            assert!(*type_ == Expr::prop());
            assert!(!*is_unsafe);
        }
        other => panic!("expected an axiom, got {:?}", other),
    }
    assert!(m.extra_const_names.is_empty());
}

#[test]
fn loads_module_from_file_bytes() {
    let region = module_region();
    let mut file = vec![0u8; HEADER_SIZE];
    file[0..5].copy_from_slice(b"olean");
    file[5] = 2;
    file.extend_from_slice(&region.data);
    let (header, m) = load_module_from_bytes(&file).unwrap();
    assert_eq!(header.version, 2);
    assert_eq!(header.base_addr, 0);
    assert_eq!(m.constants.len(), 1);
    assert_eq!(m.constants[0].name().to_string(), "Foo");

    let mut bad = file.clone();
    bad[5] = 9;
    assert!(matches!(
        load_module_from_bytes(&bad),
        Err(OleanError::UnsupportedVersion(9))
    ));
}

#[test]
fn module_root_must_have_tag_zero() {
    let mut b = Builder::new();
    let root = b.ctor(3, &[scalar(0), scalar(0), scalar(0), scalar(0)], &[]);
    b.set_root(root);
    let region = b.region();
    let mut d = Deserializer::new(&region);
    match d.read_module_data() {
        Err(e) => assert_eq!(
            e.message(),
            "deserialization error: ModuleData: expected tag 0, got 3"
        ),
        Ok(_) => panic!("expected an error"),
    }
}
