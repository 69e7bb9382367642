use yodoprice::{parse_command, Command, StockStatus};

#[test]
fn parse_quit_and_help() {
    assert_eq!(parse_command("quit"), Command::Quit);
    assert_eq!(parse_command("  q  "), Command::Quit);
    assert_eq!(parse_command("q now"), Command::Quit);
    assert_eq!(parse_command("help"), Command::Help);
    assert_eq!(parse_command("h"), Command::Help);
    assert_eq!(parse_command("hx"), Command::Unrecognized);
}

#[test]
fn parse_add() {
    assert_eq!(
        parse_command("add https://example.com/p/1"),
        Command::Add("https://example.com/p/1".to_string())
    );
    assert_eq!(
        parse_command("a   https://example.com/p/2  extra\n"),
        Command::Add("https://example.com/p/2".to_string())
    );
    assert_eq!(parse_command("add"), Command::AddWithoutUrl);
    assert_eq!(parse_command("a   "), Command::AddWithoutUrl);
}

#[test]
fn parse_update_list_and_other() {
    assert_eq!(parse_command("update"), Command::Update);
    assert_eq!(parse_command("u"), Command::Update);
    assert_eq!(parse_command("list"), Command::List);
    assert_eq!(parse_command("\tl\r\n"), Command::List);
    assert_eq!(parse_command(""), Command::Unrecognized);
    assert_eq!(parse_command("remove 3"), Command::Unrecognized);
}

#[test]
fn stock_status_from_text() {
    assert_eq!(StockStatus::from_string("在庫あり"), StockStatus::Sufficient);
    assert_eq!(StockStatus::from_string("在庫あり（即日出荷）"), StockStatus::Sufficient);
    assert_eq!(StockStatus::from_string("お取り寄せ"), StockStatus::BackOrder);
    assert_eq!(StockStatus::from_string("在庫"), StockStatus::BackOrder);
    assert_eq!(StockStatus::from_string(""), StockStatus::BackOrder);
    assert_eq!(StockStatus::default(), StockStatus::BackOrder);
}
