use lineseek::{Direction, OpenerBuilder, Position};

fn results_1() -> Vec<String> {
    vec!["hello", "there", "whats", "up"].iter().map(|i| i.to_string()).collect()
}

fn results_2() -> Vec<String> {
    vec!["am i clear now"].iter().map(|i| i.to_string()).collect()
}

// Content of the one-line-per-entry fixtures the suite works on: the
// four-line file, the one-line file, and the empty file.
fn file_1() -> Vec<String> {
    results_1()
}

fn file_2() -> Vec<String> {
    results_2()
}

fn file_3() -> Vec<String> {
    Vec::new()
}

#[test]
fn test_open_file_forward() {
    for (idx, line) in lineseek::open_file(
        &file_1(),
        Position::from(None::<String>),
        Direction::from(None::<String>),
        None,
    )
    .unwrap()
    .into_iter()
    .enumerate()
    {
        assert_eq!(results_1()[idx], line);
    }
}

#[test]
fn test_open_file_backward() {
    let mut results: Vec<String> = results_1();
    results.reverse();
    for (idx, line) in lineseek::open_file(&file_1(), Position::End, Direction::Backward, None)
        .unwrap()
        .into_iter()
        .enumerate()
    {
        assert_eq!(results[idx], line);
    }
}

#[test]
fn test_one_line_file() {
    let mut forward = vec![];
    for line in lineseek::open_file(
        &file_2(),
        Position::from(None::<String>),
        Direction::from(None::<String>),
        None,
    )
    .unwrap()
    {
        forward.push(line);
    }

    let mut backward = vec![];
    for line in lineseek::open_file(
        &file_2(),
        Position::End,
        Direction::Backward,
        Some(Position::End),
    )
    .unwrap()
    {
        backward.push(line);
    }

    let mut middle = vec![];
    for line in
        lineseek::open_file(&file_2(), Position::Middle(1), Direction::Forward, None).unwrap()
    {
        middle.push(line);
    }

    assert_eq!(forward, backward);
    assert_eq!(backward, middle);
    assert_eq!(forward, results_2());
}

#[test]
fn test_empty_file() {
    let mut results = vec![];
    for line in lineseek::open_file(
        &file_3(),
        Position::from(None::<String>),
        Direction::from(None::<String>),
        None,
    )
    .unwrap()
    {
        results.push(line);
    }

    assert_eq!(results.len(), 0);
}

#[test]
fn test_max_position() {
    let mut max_for = vec![];
    for line in lineseek::open_file(
        &file_1(),
        Position::from(None::<String>),
        Direction::from(None::<String>),
        Some(Position::Middle(2)),
    )
    .unwrap()
    {
        max_for.push(line);
    }
}

#[test]
fn test_string_args() {
    let mut results: Vec<String> = results_1();
    results.reverse();
    for (idx, line) in lineseek::open_file(
        &file_1(),
        Position::from("end"),
        Direction::from("backward"),
        None,
    )
    .unwrap()
    .into_iter()
    .enumerate()
    {
        assert_eq!(results[idx], line);
    }
}

#[test]
fn test_builder() {
    let opener = OpenerBuilder::default()
        .path("./testfiles/3.txt".to_string())
        .build()
        .unwrap()
        .open(&file_3())
        .unwrap();

    assert_eq!(opener.len(), 0)
}

#[test]
fn test_error_cases() {
    let opener = OpenerBuilder::default()
        .path("./testfiles/3.txt".to_string())
        .position("start")
        .direction("backward")
        .build()
        .unwrap()
        .open(&file_3())
        .unwrap_err();
    assert_eq!("Cannot go \"backwards\" from the \"start\" position.", opener.message());
    let opener = OpenerBuilder::default()
        .path("./testfiles/3.txt".to_string())
        .position("end")
        .direction("forward")
        .build()
        .unwrap()
        .open(&file_3())
        .unwrap_err();
    assert_eq!("Cannot go \"forwards\" from the \"end\" position.", opener.message());
    let opener = OpenerBuilder::default()
        .path("./testfiles/3.txt".to_string())
        .position("3")
        .direction("forward")
        .max_position("2")
        .build()
        .unwrap()
        .open(&file_3())
        .unwrap_err();
    assert_eq!(
        "Cannot have a max line position \"less\" than the current line position when the direction is \"forward\".",
        opener.message()
    );
    let opener = OpenerBuilder::default()
        .path("./testfiles/3.txt".to_string())
        .position("2")
        .direction("backward")
        .max_position("3")
        .build()
        .unwrap()
        .open(&file_3())
        .unwrap_err();
    assert_eq!(
        "Cannot have a max line position \"greater\" than the current line position when the direction is \"backward\".",
        opener.message()
    );
}
