//! The operations of the engine, run against a small stand-in for the
//! runtime that keeps count of every reference it hands out.

use renc::{
    spelled_text, CUtf8, Effect, Fragment, Lease, Outcome, Reading, RebCode, RebEngine, RebError,
    RebValue, Source, Spelling, Step,
};

#[derive(Clone, Debug, PartialEq)]
enum Cell {
    Void,
    Blank,
    Char(u32),
    Integer(i64),
    Decimal(u64),
    Text(String),
    Word(String),
    Block(Vec<Cell>),
    Function,
    Error { type_: String, id: String, message: String, file: String },
}

enum Token {
    Item(Cell),
    Plus,
    Divide,
}

/// A stand-in runtime. It knows integers, `+` and `/`, string literals, one
/// function (Fibonacci, whatever the body says), `entrap`, `first`, `get in`,
/// `error?`, `block?` and `print`.
struct Toy {
    running: bool,
    slots: Vec<(Cell, bool)>,
    printed: Vec<String>,
    calls: usize,
}

fn fib(n: i64) -> i64 {
    let (mut a, mut b) = (0i64, 1i64);
    for _ in 0..n {
        let c = a + b;
        a = b;
        b = c;
    }
    a
}

fn text_of(fragment: &Fragment) -> Option<String> {
    match fragment {
        Fragment::Text(t) => {
            let bytes = t.as_bytes_with_nul();
            assert_eq!(bytes.last(), Some(&0u8));
            let body = &bytes[..bytes.len() - 1];
            assert!(!body.contains(&0u8));
            Some(String::from_utf8(body.to_vec()).unwrap())
        }
        Fragment::Value(_) => None,
        Fragment::End => None,
    }
}

/// The entries of a list before its end marker, which must be the last
/// entry and the only one.
fn body(list: &[Fragment]) -> &[Fragment] {
    assert!(matches!(list.last(), Some(Fragment::End)), "the list is not closed");
    let items = &list[..list.len() - 1];
    assert!(!items.iter().any(|f| matches!(f, Fragment::End)), "an end marker inside the list");
    items
}

fn handle_of(list: &[Fragment]) -> usize {
    match body(list) {
        [Fragment::Value(h)] => *h,
        _ => panic!("the list holds more than one value"),
    }
}

impl Toy {
    fn new() -> Toy {
        Toy { running: false, slots: Vec::new(), printed: Vec::new(), calls: 0 }
    }

    fn hand_out(&mut self, cell: Cell) -> usize {
        self.slots.push((cell, true));
        self.slots.len()
    }

    fn cell(&self, handle: usize) -> Cell {
        let (cell, live) = &self.slots[handle - 1];
        assert!(*live, "handle {} used after release", handle);
        cell.clone()
    }

    fn live(&self) -> usize {
        self.slots.iter().filter(|s| s.1).count()
    }

    fn tokens(&self, list: &[Fragment]) -> Vec<Token> {
        let mut out = Vec::new();
        for fragment in list {
            match fragment {
                Fragment::End => panic!("an end marker inside the list"),
                Fragment::Value(h) => out.push(Token::Item(self.cell(*h))),
                Fragment::Text(_) => {
                    let text = text_of(fragment).unwrap();
                    let trimmed = text.trim();
                    if trimmed.starts_with("func") {
                        out.push(Token::Item(Cell::Function));
                    } else if trimmed.starts_with('"') && trimmed.ends_with('"') {
                        let inner = &trimmed[1..trimmed.len() - 1];
                        out.push(Token::Item(Cell::Text(inner.to_string())));
                    } else {
                        for word in trimmed.split_whitespace() {
                            out.push(match word {
                                "+" => Token::Plus,
                                "/" => Token::Divide,
                                w => match w.parse::<i64>() {
                                    Ok(i) => Token::Item(Cell::Integer(i)),
                                    Err(_) => Token::Item(Cell::Word(w.to_string())),
                                },
                            });
                        }
                    }
                }
            }
        }
        out
    }

    fn expression(&self, list: &[Fragment]) -> Result<Cell, Cell> {
        let tokens = self.tokens(list);
        let mut items = tokens.into_iter();
        let mut acc = match items.next() {
            Some(Token::Item(c)) => c,
            _ => panic!("expression starts with an operator"),
        };
        if acc == Cell::Function {
            return match items.next() {
                Some(Token::Item(Cell::Integer(n))) => Ok(Cell::Integer(fib(n))),
                None => Ok(Cell::Function),
                _ => panic!("function applied to a non-integer"),
            };
        }
        while let Some(op) = items.next() {
            let rhs = match items.next() {
                Some(Token::Item(Cell::Integer(i))) => i,
                _ => panic!("operand missing"),
            };
            let lhs = match acc {
                Cell::Integer(i) => i,
                _ => panic!("arithmetic on a non-integer"),
            };
            acc = match op {
                Token::Plus => Cell::Integer(lhs + rhs),
                Token::Divide => {
                    if rhs == 0 {
                        return Err(Cell::Error {
                            type_: "Math".to_string(),
                            id: "zero-divide".to_string(),
                            message: "attempt to divide by zero \u{2014} z\u{e9}ro".to_string(),
                            file: "tmp-boot.r".to_string(),
                        });
                    }
                    Cell::Integer(lhs / rhs)
                }
                Token::Item(_) => panic!("operator missing"),
            };
        }
        Ok(acc)
    }

    fn evaluate(&mut self, list: &[Fragment]) -> Cell {
        let list = body(list);
        self.calls += 1;
        let first = text_of(&list[0]);
        match first.as_deref() {
            Some("entrap [") => {
                assert_eq!(text_of(&list[list.len() - 1]).as_deref(), Some("]"));
                match self.expression(&list[1..list.len() - 1]) {
                    Ok(cell) => Cell::Block(vec![cell]),
                    Err(error) => error,
                }
            }
            Some("first") => match self.tokens(&list[1..]).pop() {
                Some(Token::Item(Cell::Block(items))) => items[0].clone(),
                _ => panic!("first of a non-block"),
            },
            Some("get in") => {
                let field = text_of(&list[2]).unwrap();
                match (self.tokens(&list[1..2]).pop(), field.as_str()) {
                    (Some(Token::Item(Cell::Error { type_, .. })), "'type") => Cell::Word(type_),
                    (Some(Token::Item(Cell::Error { id, .. })), "'id") => Cell::Word(id),
                    (Some(Token::Item(Cell::Error { message, .. })), "'message") => {
                        Cell::Text(message)
                    }
                    (Some(Token::Item(Cell::Error { file, .. })), "'file") => Cell::Word(file),
                    _ => panic!("no such field: {}", field),
                }
            }
            _ => match self.expression(list) {
                Ok(cell) => cell,
                Err(error) => error,
            },
        }
    }

    fn value(&mut self, source: &Source) -> usize {
        assert!(self.running);
        let cell = match source {
            Source::Void => Cell::Void,
            Source::Blank => Cell::Blank,
            Source::Char(c) => Cell::Char(*c),
            Source::Integer(i) => Cell::Integer(*i),
            Source::Decimal(bits) => Cell::Decimal(*bits),
            Source::Value(list) => self.evaluate(list),
            Source::ValueQ(list) => self.evaluate(list),
        };
        self.hand_out(cell)
    }

    fn did(&mut self, list: &[Fragment]) -> bool {
        assert!(self.running);
        let list = body(list);
        self.calls += 1;
        let word = text_of(&list[0]).unwrap();
        let subject = match self.tokens(&list[1..]).pop() {
            Some(Token::Item(cell)) => cell,
            _ => panic!("nothing to ask about"),
        };
        match word.as_str() {
            "error?" => matches!(subject, Cell::Error { .. }),
            "block?" => matches!(subject, Cell::Block(_)),
            w => panic!("unknown predicate {}", w),
        }
    }

    /// The bytes of the spelling, as they would stand in the runtime's buffer.
    fn spell(&mut self, spelling: &Spelling) -> Vec<u8> {
        assert!(self.running);
        let (handle, quoted) = match spelling {
            Spelling::Spell(list) => (handle_of(list), false),
            Spelling::SpellQ(list) => (handle_of(list), true),
        };
        match (self.cell(handle), quoted) {
            (Cell::Text(t), _) => t.into_bytes(),
            (Cell::Word(w), true) => w.into_bytes(),
            (Cell::Word(w), false) => w.into_bytes(),
            (other, _) => panic!("cannot spell {:?}", other),
        }
    }

    fn effect(&mut self, effect: &Effect) {
        match effect {
            Effect::Startup => {
                assert!(!self.running);
                self.running = true;
            }
            Effect::Shutdown(clean) => {
                assert!(self.running);
                assert!(*clean);
                self.running = false;
            }
            Effect::Elide(list) => {
                assert!(self.running);
                let list = body(list);
                let text = text_of(&list[0]).unwrap();
                let rest = text.trim().strip_prefix("print ").unwrap();
                self.printed.push(rest.trim_matches('"').to_string());
            }
            Effect::Release(h) => {
                assert!(self.running);
                let slot = &mut self.slots[*h - 1];
                assert!(slot.1, "handle {} released twice", h);
                slot.1 = false;
            }
        }
    }

    fn read(&mut self, reading: Reading) -> i64 {
        assert!(self.running);
        match reading {
            Reading::Tick => self.calls as i64,
            Reading::Integer(list) => match self.cell(handle_of(&list)) {
                Cell::Integer(i) => i,
                other => panic!("{:?} is no integer", other),
            },
        }
    }

    /// Performs the calls of an operation until it is done.
    fn finish<'a>(&mut self, start: Step<'a>) -> Outcome<'a> {
        let mut step = start;
        loop {
            step = match step {
                Step::Value(source, then) => then.resume(self.value(&source)),
                Step::Did(list, then) => then.resume(self.did(&list)),
                Step::Spell(spelling, then) => {
                    then.resume(spelled_text(self.spell(&spelling)).unwrap())
                }
                Step::Effect(effect, then) => {
                    self.effect(&effect);
                    then.resume()
                }
                Step::Done(outcome) => return outcome,
            };
        }
    }

    fn value_of<'a>(&mut self, start: Step<'a>) -> RebValue<'a> {
        match self.finish(start) {
            Outcome::Value(v) => v,
            _ => panic!("the operation did not end in a value"),
        }
    }

    fn checked<'a>(&mut self, start: Step<'a>) -> Result<RebValue<'a>, RebError> {
        match self.finish(start) {
            Outcome::Value(v) => Ok(v),
            Outcome::Failed(e) => Err(e),
            _ => panic!("the operation ended in neither a value nor an error"),
        }
    }

    fn raw<'a>(&mut self, start: Step<'a>) -> Result<RebValue<'a>, RebValue<'a>> {
        match self.finish(start) {
            Outcome::Value(v) => Ok(v),
            Outcome::Raised(v) => Err(v),
            _ => panic!("the operation ended in neither a value nor a raised error"),
        }
    }

    fn text_of<'a>(&mut self, start: Step<'a>) -> String {
        match self.finish(start) {
            Outcome::Text(t) => t,
            _ => panic!("the operation did not end in text"),
        }
    }

    fn drop_value(&mut self, value: RebValue<'_>) {
        match self.finish(value.release()) {
            Outcome::Nothing => {}
            _ => panic!("a release ends in nothing"),
        }
    }
}

/// The value that `engine` makes of the handle `handle`.
fn holding(engine: &RebEngine, handle: usize) -> RebValue<'_> {
    match engine.void() {
        Step::Value(_, then) => match then.resume(handle) {
            Step::Done(Outcome::Value(v)) => v,
            _ => panic!("a constructor ends with the first answer"),
        },
        _ => panic!("a constructor starts by making a value"),
    }
}

fn started(toy: &mut Toy, lease: &mut Lease) -> RebEngine {
    assert!(!lease.is_started());
    let (engine, startup) = RebEngine::new(lease);
    toy.effect(&startup);
    engine
}

fn stopped(toy: &mut Toy, lease: &mut Lease, engine: RebEngine) {
    assert!(lease.is_started());
    let shutdown = engine.shutdown(lease);
    toy.effect(&shutdown);
    assert_eq!(toy.live(), 0, "references outlived the engine");
}

#[test]
fn engine() {
    let mut toy = Toy::new();
    let mut lease = Lease::new();
    let _engine = started(&mut toy, &mut lease);
    assert!(toy.running);
    assert!(lease.is_started());
}

#[test]
fn unbox() {
    let mut toy = Toy::new();
    let mut lease = Lease::new();
    let engine = started(&mut toy, &mut lease);
    let one = toy.value_of(engine.integer(1));
    assert_eq!(1, toy.read(one.unbox_integer()));
}

#[test]
fn one_plus_one_v0() {
    let mut toy = Toy::new();
    let mut lease = Lease::new();
    let engine = started(&mut toy, &mut lease);
    let two = match toy.checked(engine.value1(&CUtf8::new("1 + 1"))) {
        Ok(v) => v,
        Err(e) => {
            println!("Failed: {:?}", e);
            return;
        }
    };
    assert_eq!(2, toy.read(two.unbox_integer()));
}

#[test]
fn one_plus_one_v1() {
    let mut toy = Toy::new();
    let mut lease = Lease::new();
    let engine = started(&mut toy, &mut lease);
    let one = toy.value_of(engine.integer(1));
    let two = toy.raw(engine.value2(&CUtf8::new("1 + "), &one)).unwrap();
    assert_eq!(2, toy.read(two.unbox_integer()));
}

#[test]
fn one_plus_one_v2() {
    let mut toy = Toy::new();
    let mut lease = Lease::new();
    let engine = started(&mut toy, &mut lease);
    let one = toy.value_of(engine.integer(1));
    let two = toy.value_of(engine.value3(&one, &CUtf8::new("+"), &one));
    assert_eq!(2, toy.read(two.unbox_integer()));
}

#[test]
fn hello_world() {
    let mut toy = Toy::new();
    let mut lease = Lease::new();
    let engine = started(&mut toy, &mut lease);
    let outcome = toy.finish(engine.elide(&CUtf8::new(r##"print "hello, world!""##)));
    assert!(matches!(outcome, Outcome::Nothing));
    assert_eq!(toy.printed, vec!["hello, world!".to_string()]);
}

#[test]
fn func_call() {
    let mut toy = Toy::new();
    let mut lease = Lease::new();
    let engine = started(&mut toy, &mut lease);
    let fib_str = CUtf8::new(
        r##"
        func[
            n [integer!]
        ][
            if n <= 1 [return n]
            f0: 0
            f1: 1
            for i 2 n 1 [
                f: f0 + f1
                f0: f1
                f1: f
            ]
            f
        ]"##,
    );
    let fib = toy.checked(engine.value1(&fib_str)).unwrap();

    let n = toy.value_of(engine.integer(0));
    let fibn = toy.raw(engine.value2(&fib, &n)).unwrap();
    assert_eq!(0, toy.read(fibn.unbox_integer()));

    let n = toy.value_of(engine.integer(1));
    let fibn = toy.raw(engine.value2(&fib, &n)).unwrap();
    assert_eq!(1, toy.read(fibn.unbox_integer()));

    let n = toy.value_of(engine.integer(2));
    let fibn = toy.raw(engine.value2(&fib, &n)).unwrap();
    assert_eq!(1, toy.read(fibn.unbox_integer()));

    let n = toy.value_of(engine.integer(3));
    let fibn = toy.raw(engine.value2(&fib, &n)).unwrap();
    assert_eq!(2, toy.read(fibn.unbox_integer()));

    let n = toy.value_of(engine.integer(4));
    let fibn = toy.raw(engine.value2(&fib, &n)).unwrap();
    assert_eq!(3, toy.read(fibn.unbox_integer()));

    let n = toy.value_of(engine.integer(5));
    let fibn = toy.raw(engine.value2(&fib, &n)).unwrap();
    assert_eq!(5, toy.read(fibn.unbox_integer()));

    let n = toy.value_of(engine.integer(6));
    let fibn = toy.raw(engine.value2(&fib, &n)).unwrap();
    assert_eq!(8, toy.read(fibn.unbox_integer()));

    let n = toy.value_of(engine.integer(7));
    let fibn = toy.raw(engine.value2(&fib, &n)).unwrap();
    assert_eq!(13, toy.read(fibn.unbox_integer()));

    let n = toy.value_of(engine.integer(8));
    let fibn = toy.raw(engine.value2(&fib, &n)).unwrap();
    assert_eq!(21, toy.read(fibn.unbox_integer()));

    let n = toy.value_of(engine.integer(9));
    let fibn = toy.raw(engine.value2(&fib, &n)).unwrap();
    assert_eq!(34, toy.read(fibn.unbox_integer()));

    let n = toy.value_of(engine.integer(10));
    let fibn = toy.raw(engine.value2(&fib, &n)).unwrap();
    assert_eq!(55, toy.read(fibn.unbox_integer()));
}

#[test]
fn hello_error() {
    let mut toy = Toy::new();
    let mut lease = Lease::new();
    let engine = started(&mut toy, &mut lease);
    let e = toy.checked(engine.value1(&CUtf8::new("1 / 0")));
    assert!(e.is_err());
}

#[test]
fn second_start_is_refused_until_shutdown() {
    let mut toy = Toy::new();
    let mut lease = Lease::new();
    let engine = started(&mut toy, &mut lease);
    assert!(lease.is_started());
    // A second attempt finds the flag set, and sets nothing.
    assert!(lease.start());
    assert!(lease.is_started());
    stopped(&mut toy, &mut lease, engine);
    assert!(!lease.is_started());
    // Once the engine is gone, the lease can be taken again.
    let again = started(&mut toy, &mut lease);
    stopped(&mut toy, &mut lease, again);
}

#[test]
fn lease_start_and_stop_report_the_flag() {
    let mut lease = Lease::new();
    assert!(!lease.stop());
    assert!(!lease.start());
    assert!(lease.start());
    assert!(lease.stop());
    assert!(!lease.stop());
    assert!(!lease.is_started());
}

#[test]
fn integers_come_back_unchanged() {
    let mut toy = Toy::new();
    let mut lease = Lease::new();
    let engine = started(&mut toy, &mut lease);
    for i in [0i64, 1, -1, 42, -7_000_000_000, i64::MAX, i64::MIN] {
        let step = engine.integer(i);
        assert!(matches!(&step, Step::Value(Source::Integer(j), _) if *j == i));
        let v = toy.value_of(step);
        assert!(matches!(v.unbox_integer(), Reading::Integer(list) if handle_of(&list) == v.as_raw()));
        assert_eq!(i, toy.read(v.unbox_integer()));
        toy.drop_value(v);
    }
    stopped(&mut toy, &mut lease, engine);
}

#[test]
fn constructors_ask_for_the_right_value() {
    let mut toy = Toy::new();
    let mut lease = Lease::new();
    let engine = started(&mut toy, &mut lease);
    assert!(matches!(engine.void(), Step::Value(Source::Void, _)));
    assert!(matches!(engine.blank(), Step::Value(Source::Blank, _)));
    assert!(matches!(engine.char('A'), Step::Value(Source::Char(65), _)));
    assert!(matches!(engine.char('\u{20ac}'), Step::Value(Source::Char(0x20ac), _)));
    assert!(matches!(engine.tick(), Reading::Tick));
    let v = toy.value_of(engine.char('z'));
    assert_eq!(toy.cell(v.as_raw()), Cell::Char(122));
    let w = toy.value_of(engine.void());
    assert_eq!(toy.cell(w.as_raw()), Cell::Void);
    let b = toy.value_of(engine.blank());
    assert_eq!(toy.cell(b.as_raw()), Cell::Blank);
    toy.drop_value(v);
    toy.drop_value(w);
    toy.drop_value(b);
    stopped(&mut toy, &mut lease, engine);
}

#[test]
fn a_decimal_travels_as_its_bits() {
    let mut toy = Toy::new();
    let mut lease = Lease::new();
    let engine = started(&mut toy, &mut lease);
    let bits = 1.5f64.to_bits();
    assert_eq!(bits, 0x3ff8_0000_0000_0000);
    assert!(matches!(engine.decimal(bits), Step::Value(Source::Decimal(b), _) if b == bits));
    let v = toy.value_of(engine.decimal(bits));
    match toy.cell(v.as_raw()) {
        Cell::Decimal(b) => assert_eq!(f64::from_bits(b), 1.5),
        other => panic!("{:?} is no decimal", other),
    }
    toy.drop_value(v);
    stopped(&mut toy, &mut lease, engine);
}

#[test]
fn value1_agrees_with_load() {
    let mut toy = Toy::new();
    let mut lease = Lease::new();
    let engine = started(&mut toy, &mut lease);
    for code in ["1 + 1", "7", "40 + 2", "9 / 3", "1 + 2 + 3"] {
        let trapped = toy.checked(engine.value1(&CUtf8::new(code))).unwrap();
        let direct = toy.checked(engine.load(code)).unwrap();
        assert_eq!(toy.read(trapped.unbox_integer()), toy.read(direct.unbox_integer()));
        toy.drop_value(trapped);
        toy.drop_value(direct);
    }
    stopped(&mut toy, &mut lease, engine);
}

#[test]
fn value1_takes_the_result_out_of_the_block() {
    let mut toy = Toy::new();
    let mut lease = Lease::new();
    let engine = started(&mut toy, &mut lease);
    let two = toy.checked(engine.value1(&CUtf8::new("1 + 1"))).unwrap();
    // The trap's block and the result were handed out; the block is gone.
    assert_eq!(toy.slots.len(), 2);
    assert_eq!(toy.slots[0], (Cell::Block(vec![Cell::Integer(2)]), false));
    assert_eq!(toy.slots[1], (Cell::Integer(2), true));
    assert_eq!(two.as_raw(), 2);
    toy.drop_value(two);
    stopped(&mut toy, &mut lease, engine);
}

#[test]
fn value1_sends_its_fragment_inside_the_trap() {
    let mut lease = Lease::new();
    let (engine, _) = RebEngine::new(&mut lease);
    match engine.value1(&CUtf8::new("1 + 1")) {
        Step::Value(Source::Value(list), _) => {
            let texts: Vec<Option<String>> = body(&list).iter().map(text_of).collect();
            assert_eq!(
                texts,
                vec![
                    Some("entrap [".to_string()),
                    Some("1 + 1".to_string()),
                    Some("]".to_string())
                ]
            );
        }
        _ => panic!("value1 starts with an evaluation"),
    }
}

#[test]
fn value2_keeps_the_order_of_its_fragments() {
    let mut lease = Lease::new();
    let (engine, _) = RebEngine::new(&mut lease);
    let seven = holding(&engine, 7);
    match engine.value2(&seven, &CUtf8::new("+ 1")) {
        Step::Value(Source::Value(list), _) => {
            let list = body(&list);
            assert_eq!(list.len(), 4);
            assert_eq!(text_of(&list[0]).as_deref(), Some("entrap ["));
            assert!(matches!(list[1], Fragment::Value(7)));
            assert_eq!(text_of(&list[2]).as_deref(), Some("+ 1"));
            assert_eq!(text_of(&list[3]).as_deref(), Some("]"));
        }
        _ => panic!("value2 starts with an evaluation"),
    }
}

#[test]
fn value3_sends_three_fragments_and_no_trap() {
    let mut lease = Lease::new();
    let (engine, _) = RebEngine::new(&mut lease);
    let a = holding(&engine, 3);
    let b = holding(&engine, 9);
    match engine.value3(&a, &CUtf8::new("+"), &b) {
        Step::Value(Source::Value(list), then) => {
            let list = body(&list);
            assert_eq!(list.len(), 3);
            assert!(matches!(list[0], Fragment::Value(3)));
            assert_eq!(text_of(&list[1]).as_deref(), Some("+"));
            assert!(matches!(list[2], Fragment::Value(9)));
            // Whatever comes back is the result: no question is asked.
            match then.resume(77) {
                Step::Done(Outcome::Value(v)) => assert_eq!(v.as_raw(), 77),
                _ => panic!("value3 ends with the first answer"),
            }
        }
        _ => panic!("value3 starts with an evaluation"),
    }
}

#[test]
fn value3_does_not_catch_an_error_value() {
    let mut toy = Toy::new();
    let mut lease = Lease::new();
    let engine = started(&mut toy, &mut lease);
    let one = toy.value_of(engine.integer(1));
    let zero = toy.value_of(engine.integer(0));
    let v = toy.value_of(engine.value3(&one, &CUtf8::new("/"), &zero));
    assert!(matches!(toy.cell(v.as_raw()), Cell::Error { .. }));
    toy.drop_value(v);
    toy.drop_value(one);
    toy.drop_value(zero);
    stopped(&mut toy, &mut lease, engine);
}

#[test]
fn hello_error_is_decoded() {
    let mut toy = Toy::new();
    let mut lease = Lease::new();
    let engine = started(&mut toy, &mut lease);
    let e = toy.checked(engine.value1(&CUtf8::new("1 / 0"))).unwrap_err();
    let RebError::RebError { type_, id, message, near, where_, file, line } = e;
    assert_eq!(type_, "Math");
    assert_eq!(id, "zero-divide");
    assert_eq!(message, "attempt to divide by zero \u{2014} z\u{e9}ro");
    assert_eq!(file, "tmp-boot.r");
    assert_eq!(near, "");
    assert_eq!(where_, "");
    assert_eq!(line, 0);
    // The error value and the four field values were all released.
    assert_eq!(toy.slots.len(), 5);
    stopped(&mut toy, &mut lease, engine);
}

#[test]
fn decoding_spells_the_message_plainly_and_the_rest_quoted() {
    let mut lease = Lease::new();
    let (engine, _) = RebEngine::new(&mut lease);
    let error = holding(&engine, 40);
    let mut step = RebError::from_rebval(&error);
    let mut spellings: Vec<(String, bool)> = Vec::new();
    let mut released: Vec<usize> = Vec::new();
    let mut next = 100usize;
    let outcome = loop {
        step = match step {
            Step::Value(Source::Value(list), then) => {
                let list = body(&list);
                assert_eq!(list.len(), 3);
                assert_eq!(text_of(&list[0]).as_deref(), Some("get in"));
                assert!(matches!(list[1], Fragment::Value(40)));
                spellings.push((text_of(&list[2]).unwrap(), false));
                next += 1;
                then.resume(next)
            }
            Step::Spell(Spelling::Spell(list), then) => {
                assert_eq!(handle_of(&list), next);
                spellings.last_mut().unwrap().1 = false;
                then.resume(format!("text of {}", next))
            }
            Step::Spell(Spelling::SpellQ(list), then) => {
                assert_eq!(handle_of(&list), next);
                spellings.last_mut().unwrap().1 = true;
                then.resume(format!("text of {}", next))
            }
            Step::Effect(Effect::Release(h), then) => {
                released.push(h);
                then.resume()
            }
            Step::Done(outcome) => break outcome,
            _ => panic!("decoding makes no other call"),
        };
    };
    assert_eq!(
        spellings,
        vec![
            ("'type".to_string(), true),
            ("'id".to_string(), true),
            ("'message".to_string(), false),
            ("'file".to_string(), true)
        ]
    );
    // The caller keeps the error value: only the field values are released.
    assert_eq!(released, vec![101, 102, 103, 104]);
    match outcome {
        Outcome::Failed(RebError::RebError { type_, id, message, file, .. }) => {
            assert_eq!(type_, "text of 101");
            assert_eq!(id, "text of 102");
            assert_eq!(message, "text of 103");
            assert_eq!(file, "text of 104");
        }
        _ => panic!("decoding ends in the error"),
    }
}

#[test]
fn value2_hands_the_error_value_out() {
    let mut toy = Toy::new();
    let mut lease = Lease::new();
    let engine = started(&mut toy, &mut lease);
    let zero = toy.value_of(engine.integer(0));
    let raised = toy.raw(engine.value2(&CUtf8::new("1 /"), &zero)).unwrap_err();
    assert!(matches!(toy.cell(raised.as_raw()), Cell::Error { .. }));
    // The caller may decode it, and still holds it afterwards.
    match toy.finish(RebError::from_rebval(&raised)) {
        Outcome::Failed(RebError::RebError { id, .. }) => assert_eq!(id, "zero-divide"),
        _ => panic!("decoding ends in the error"),
    }
    assert!(matches!(toy.cell(raised.as_raw()), Cell::Error { .. }));
    toy.drop_value(raised);
    toy.drop_value(zero);
    stopped(&mut toy, &mut lease, engine);
}

#[test]
fn load_decodes_an_error_value() {
    let mut toy = Toy::new();
    let mut lease = Lease::new();
    let engine = started(&mut toy, &mut lease);
    match engine.load("1 / 0") {
        Step::Value(Source::ValueQ(list), _) => {
            let list = body(&list);
            assert_eq!(list.len(), 1);
            assert_eq!(text_of(&list[0]).as_deref(), Some("1 / 0"));
        }
        _ => panic!("load starts with an evaluation by the Q entry point"),
    }
    let e = toy.checked(engine.load("1 / 0")).unwrap_err();
    let RebError::RebError { type_, .. } = e;
    assert_eq!(type_, "Math");
    stopped(&mut toy, &mut lease, engine);
}

#[test]
fn a_result_that_is_no_block_is_returned_as_it_is() {
    let mut lease = Lease::new();
    let (engine, _) = RebEngine::new(&mut lease);
    let after_trap = match engine.value1(&CUtf8::new("1")) {
        Step::Value(_, then) => then.resume(5),
        _ => panic!("value1 starts with an evaluation"),
    };
    let after_error = match after_trap {
        Step::Did(list, then) => {
            let list = body(&list);
            assert_eq!(list.len(), 2);
            assert_eq!(text_of(&list[0]).as_deref(), Some("error?"));
            assert!(matches!(list[1], Fragment::Value(5)));
            then.resume(false)
        }
        _ => panic!("the trap's result is asked whether it is an error"),
    };
    let after_block = match after_error {
        Step::Did(list, then) => {
            let list = body(&list);
            assert_eq!(list.len(), 2);
            assert_eq!(text_of(&list[0]).as_deref(), Some("block?"));
            assert!(matches!(list[1], Fragment::Value(5)));
            then.resume(false)
        }
        _ => panic!("the trap's result is asked whether it is a block"),
    };
    match after_block {
        Step::Done(Outcome::Value(v)) => assert_eq!(v.as_raw(), 5),
        _ => panic!("the result is returned as it is"),
    }
}

#[test]
fn map_field_fetches_the_named_field() {
    let mut toy = Toy::new();
    let mut lease = Lease::new();
    let engine = started(&mut toy, &mut lease);
    let zero = toy.value_of(engine.integer(0));
    let raised = toy.raw(engine.value2(&CUtf8::new("1 /"), &zero)).unwrap_err();
    match engine.map_field(&raised, "id") {
        Step::Value(Source::Value(list), _) => {
            let list = body(&list);
            assert_eq!(list.len(), 3);
            assert_eq!(text_of(&list[0]).as_deref(), Some("get in"));
            assert!(matches!(list[1], Fragment::Value(h) if h == raised.as_raw()));
            assert_eq!(text_of(&list[2]).as_deref(), Some("'id"));
        }
        _ => panic!("map_field starts with an evaluation"),
    }
    let id = toy.value_of(engine.map_field(&raised, "id"));
    assert_eq!(toy.text_of(id.unbox_string_q()), "zero-divide");
    let message = toy.value_of(engine.map_field(&raised, "message"));
    assert_eq!(toy.text_of(message.unbox_string()), "attempt to divide by zero \u{2014} z\u{e9}ro");
    toy.drop_value(id);
    toy.drop_value(message);
    toy.drop_value(raised);
    toy.drop_value(zero);
    stopped(&mut toy, &mut lease, engine);
}

#[test]
fn every_reference_is_released_once() {
    let mut toy = Toy::new();
    let mut lease = Lease::new();
    let engine = started(&mut toy, &mut lease);
    for round in 0..50i64 {
        let n = toy.value_of(engine.integer(round));
        let sum = toy.raw(engine.value2(&CUtf8::new("1 +"), &n)).unwrap();
        assert_eq!(round + 1, toy.read(sum.unbox_integer()));
        assert!(toy.checked(engine.value1(&CUtf8::new("1 / 0"))).is_err());
        assert!(toy.checked(engine.load("2 / 0")).is_err());
        let zero = toy.value_of(engine.integer(0));
        let raised = toy.raw(engine.value2(&CUtf8::new("3 /"), &zero)).unwrap_err();
        // Only what the caller still holds is alive.
        assert_eq!(toy.live(), 4);
        toy.drop_value(raised);
        toy.drop_value(zero);
        toy.drop_value(sum);
        toy.drop_value(n);
        assert_eq!(toy.live(), 0);
    }
    stopped(&mut toy, &mut lease, engine);
}

#[test]
fn text_with_many_byte_characters_survives() {
    let mut toy = Toy::new();
    let mut lease = Lease::new();
    let engine = started(&mut toy, &mut lease);
    let text = "gr\u{fc}\u{df}e \u{2014} \u{4f60}\u{597d} \u{1f980} na\u{ef}ve";
    let code = format!("\"{}\"", text);
    let v = toy.checked(engine.value1(&CUtf8::new(&code))).unwrap();
    assert_eq!(toy.text_of(v.unbox_string()), text);
    assert_eq!(toy.text_of(v.unbox_string_q()), text);
    assert!(matches!(
        v.unbox_string(),
        Step::Spell(Spelling::Spell(list), _) if handle_of(&list) == v.as_raw()
    ));
    assert!(matches!(
        v.unbox_string_q(),
        Step::Spell(Spelling::SpellQ(list), _) if handle_of(&list) == v.as_raw()
    ));
    toy.drop_value(v);
    stopped(&mut toy, &mut lease, engine);
}

#[test]
fn a_value_is_a_fragment_of_its_handle() {
    let mut lease = Lease::new();
    let (engine, _) = RebEngine::new(&mut lease);
    let v = holding(&engine, 12);
    assert!(matches!(v.as_fragment(), Fragment::Value(12)));
    assert!(matches!(v.release(), Step::Effect(Effect::Release(12), _)));
}
