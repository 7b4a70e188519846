// Checks of string ordering and pattern matching as the scanner uses them.

#[allow(dead_code)]
struct Point {
    x: i32,
    y: i32,
    z: i32,
}

enum Message {
    Hello { id: i32 },
}

#[test]
fn ttt() -> () {
    let _input_path = "836465_first";
    let _line_number: i32 = 3;
    let _append_content = "newtest";
}

#[test]
fn test_str() -> () {
    if "83636900000000001" > "83636900000000000" {
        println!("yes")
    } else {
        println!("no")
    }
    assert!("83636900000000001" > "83636900000000000");
}

#[test]
fn foo1() {
    let origin = Point { x: 0, y: 0, z: 0 };

    match origin {
        Point { x, .. } => println!("x is {}", x),
    }

    let numbers = (2, 4, 8, 16, 32);
    match numbers {
        (.., a, b) => {
            println!("Some numbers: {}, {}", a, b);
            assert_eq!((a, b), (16, 32));
        },
    }

    println!("----");

    let msg = Message::Hello { id: 10 };
    String::from("1");
    let seen = match msg {
        Message::Hello { id: id_variable @ 3..=7 } => {
            println!("Found an id in range: {}", id_variable);
            0
        },
        Message::Hello { id: id @ 10..=12 } => {
            println!("Found an id in another range, {}", id);
            1
        },
        Message::Hello { id } => {
            println!("Found some other id: {}", id);
            2
        },
    };
    assert_eq!(seen, 1);
}
