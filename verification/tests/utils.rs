use inquire::answer::OptionAnswer;
use inquire::list_option::ListOption;
use inquire::paging::count_newlines_hyperscreaming;
use inquire::utils::{int_log10, paginate};

#[test]
fn int_log10_works() {
    for i in 1..10 {
        assert_eq!(1, int_log10(i), "Int log 10 failed for value {i}");
    }
    for i in 10..100 {
        assert_eq!(2, int_log10(i), "Int log 10 failed for value {i}");
    }
    for i in 100..1000 {
        assert_eq!(3, int_log10(i), "Int log 10 failed for value {i}");
    }
    for i in 1000..10000 {
        assert_eq!(4, int_log10(i), "Int log 10 failed for value {i}");
    }
    for i in 10000..100000 {
        assert_eq!(5, int_log10(i), "Int log 10 failed for value {i}");
    }
}

#[test]
fn int_log10_of_zero_and_max() {
    assert_eq!(0, int_log10(0));
    assert_eq!(20, int_log10(u64::MAX));
}

#[test]
fn utils_paginate_too_few() {
    let choices = ListOption::from_list(vec!["1", "2", "3"]);

    let page_size = 4usize;
    let sel = Some(3usize);

    let page = paginate(page_size, &choices, sel);

    assert_eq!(choices[..], page.content[..]);
    assert_eq!(Some(3usize), page.cursor);
    assert_eq!(true, page.first);
    assert_eq!(true, page.last);
    assert_eq!(3, page.total);
}

#[test]
fn paginate_too_few_no_cursor() {
    let choices = ListOption::from_list(vec!["1", "2", "3"]);

    let page_size = 4usize;
    let sel = None;

    let page = paginate(page_size, &choices, sel);

    assert_eq!(choices[..], page.content[..]);
    assert_eq!(None, page.cursor);
    assert_eq!(true, page.first);
    assert_eq!(true, page.last);
    assert_eq!(3, page.total);
}

#[test]
fn utils_paginate_first_half() {
    let choices = ListOption::from_list(vec!["1", "2", "3", "4", "5", "6"]);

    let page_size = 4usize;
    let sel = Some(2usize);

    let page = paginate(page_size, &choices, sel);

    assert_eq!(choices[0..4], page.content[..]);
    assert_eq!(Some(2), page.cursor);
    assert_eq!(true, page.first);
    assert_eq!(false, page.last);
    assert_eq!(6, page.total);
}

#[test]
fn paginate_first_half_no_cursor() {
    let choices = ListOption::from_list(vec!["1", "2", "3", "4", "5", "6"]);

    let page_size = 4usize;
    let sel = None;

    let page = paginate(page_size, &choices, sel);

    assert_eq!(choices[0..4], page.content[..]);
    assert_eq!(None, page.cursor);
    assert_eq!(true, page.first);
    assert_eq!(false, page.last);
    assert_eq!(6, page.total);
}

#[test]
fn utils_paginate_middle() {
    let choices = ListOption::from_list(vec!["1", "2", "3", "4", "5", "6"]);

    let page_size = 2usize;
    let sel = Some(3usize);

    let page = paginate(page_size, &choices, sel);

    assert_eq!(choices[2..4], page.content[..]);
    assert_eq!(Some(1), page.cursor);
    assert_eq!(false, page.first);
    assert_eq!(false, page.last);
    assert_eq!(6, page.total);
}

#[test]
fn paginate_middle_no_cursor() {
    let choices = ListOption::from_list(vec!["1", "2", "3", "4", "5", "6"]);

    let page_size = 2usize;
    let sel = None;

    let page = paginate(page_size, &choices, sel);

    assert_eq!(choices[0..2], page.content[..]);
    assert_eq!(None, page.cursor);
    assert_eq!(true, page.first);
    assert_eq!(false, page.last);
    assert_eq!(6, page.total);
}

#[test]
fn paginate_last_half() {
    let choices = ListOption::from_list(vec!["1", "2", "3", "4", "5", "6"]);

    let page_size = 3usize;
    let sel = Some(5usize);

    let page = paginate(page_size, &choices, sel);

    assert_eq!(choices[3..6], page.content[..]);
    assert_eq!(Some(2), page.cursor);
    assert_eq!(false, page.first);
    assert_eq!(true, page.last);
    assert_eq!(6, page.total);
}

#[test]
fn paginate_last_half_no_cursor() {
    let choices = ListOption::from_list(vec!["1", "2", "3", "4", "5", "6"]);

    let page_size = 3usize;
    let sel = None;

    let page = paginate(page_size, &choices, sel);

    assert_eq!(choices[0..3], page.content[..]);
    assert_eq!(None, page.cursor);
    assert_eq!(true, page.first);
    assert_eq!(false, page.last);
    assert_eq!(6, page.total);
}




#[test]
fn paginate_lasts_half() {
    let choices = OptionAnswer::from_str_list(&vec!["1", "2", "3", "4", "5", "6"]);

    let page_size = 3usize;
    let sel = 5usize;

    let page = inquire::paging::paginate(page_size, &choices, sel);

    assert_eq!(choices[3..6], page.content[..]);
    assert_eq!(2usize, page.selection);
    assert_eq!(false, page.first);
    assert_eq!(true, page.last);
}

#[test]
fn page_debug_text_counts_elements() {
    let choices = [1, 2, 3, 4, 5, 6];
    let page = paginate(3, &choices, Some(2));
    assert_eq!(
        "Page { first: false, last: false, content: \"(3 elements)\", cursor: Some(1), total: 6 }",
        page.debug_text()
    );
    let page = paginate(10, &choices, None);
    assert_eq!(
        "Page { first: true, last: true, content: \"(6 elements)\", cursor: None, total: 6 }",
        page.debug_text()
    );
}

#[test]
fn count_newlines_counts_every_line_break() {
    assert_eq!(0, count_newlines_hyperscreaming(""));
    assert_eq!(0, count_newlines_hyperscreaming("no breaks here"));
    assert_eq!(3, count_newlines_hyperscreaming("a\nb\n\nc"));
    assert_eq!(2, count_newlines_hyperscreaming("é\nü\n"));
    let long = "0123456789\n".repeat(40);
    assert_eq!(40, count_newlines_hyperscreaming(&long));
}

#[test]
fn paginate_too_few() {
    let choices = OptionAnswer::from_str_list(&vec!["1", "2", "3"]);

    let page_size = 4usize;
    let sel = 3usize;

    let page = inquire::paging::paginate(page_size, &choices, sel);

    assert_eq!(choices[..], page.content[..]);
    assert_eq!(3usize, page.selection);
    assert_eq!(true, page.first);
    assert_eq!(true, page.last);
}

#[test]
fn paginate_first_half() {
    let choices = OptionAnswer::from_str_list(&vec!["1", "2", "3", "4", "5", "6"]);

    let page_size = 4usize;
    let sel = 2usize;

    let page = inquire::paging::paginate(page_size, &choices, sel);

    assert_eq!(choices[0..4], page.content[..]);
    assert_eq!(2usize, page.selection);
    assert_eq!(true, page.first);
    assert_eq!(false, page.last);
}

#[test]
fn paginate_middle() {
    let choices = OptionAnswer::from_str_list(&vec!["1", "2", "3", "4", "5", "6"]);

    let page_size = 2usize;
    let sel = 3usize;

    let page = inquire::paging::paginate(page_size, &choices, sel);

    assert_eq!(choices[2..4], page.content[..]);
    assert_eq!(1usize, page.selection);
    assert_eq!(false, page.first);
    assert_eq!(false, page.last);
}
