use autocampnet::data::{NotificationState, TrafficUnits};
use autocampnet::traffic::{
    cells_from_raw, read_traffic_page, traffic_units, usage_transition, TrafficCell,
    TrafficPageError,
};

fn cell_html(figure: &str, unit: &str) -> String {
    format!("<td class=\"tabletext\">{}&nbsp;<i class=\"unit.{}\"></i></td>", figure, unit)
}

fn page(cells: &[(&str, &str)]) -> String {
    let row: String = cells.iter().map(|(f, u)| cell_html(f, u)).collect();
    format!(
        "<html><body><div id=\"menu\"><td class=\"tabletext\">9&nbsp;<i class=\"a.X\"></i></td></div>\
         <div id=\"content3\"><table><tr>{}</tr></table></div></body></html>",
        row
    )
}

fn eleven() -> Vec<(&'static str, &'static str)> {
    vec![
        ("0", "A"), ("1", "B"), ("2", "C"), ("3", "D"), ("4", "E"), ("5", "F"),
        ("1024.00", "MB"), ("10.5", "MB"), (" 3.25 ", "KB"), ("512", "MB"), ("512", "GB"),
    ]
}

#[test]
fn reads_every_cell_of_the_table() {
    let cells = read_traffic_page(&page(&eleven())).unwrap();
    assert_eq!(cells.len(), 11);
    assert_eq!(cells[6].figure, "1024.00");
    assert_eq!(cells[6].unit, "MB");
    // Trimming comes before `&nbsp;` is taken out, so the space before it stays.
    assert_eq!(cells[8].figure, "3.25 ");
    assert_eq!(cells[8].unit, "KB");
    assert_eq!(cells[10].unit, "GB");
}

#[test]
fn units_come_from_cells_six_to_ten() {
    let cells = read_traffic_page(&page(&eleven())).unwrap();
    let u = traffic_units(&cells);
    assert_eq!(
        (u.total.as_str(), u.last.as_str(), u.current.as_str(), u.used.as_str(), u.remaining.as_str()),
        ("MB", "MB", "KB", "MB", "GB")
    );
}

#[test]
fn page_without_table_is_refused() {
    let r = read_traffic_page("<html><body><p>maintenance</p></body></html>");
    assert!(matches!(r, Err(TrafficPageError::NoTrafficTable)));
}

#[test]
fn cell_without_unit_is_reported() {
    let html = "<html><div id=\"content3\"><table><tr>\
                <td class=\"tabletext\">1&nbsp;<i class=\"u.MB\"></i></td>\
                <td class=\"tabletext\">2</td></tr></table></div></html>";
    assert!(matches!(read_traffic_page(html), Err(TrafficPageError::NoUnit(1))));
}

fn descendants(second: &str) -> Option<Vec<String>> {
    Some(vec!["7&nbsp;".to_string(), second.to_string()])
}

#[test]
fn raw_cells_are_cleaned() {
    let raw = vec![
        ("  7&nbsp; ".to_string(), descendants("<b class=\"x.GB\">")),
        ("\n8\t".to_string(), descendants("<b class=\"y.MB.z\">")),
    ];
    let cells: Vec<TrafficCell> = cells_from_raw(&raw).ok().unwrap();
    assert_eq!(cells[0].figure, "7");
    assert_eq!(cells[0].unit, "GB");
    assert_eq!(cells[1].figure, "8");
    assert_eq!(cells[1].unit, "MB");
    let bad = vec![
        ("1".to_string(), descendants("<b class=\"x.GB\">")),
        ("2".to_string(), descendants("no dot")),
        ("3".to_string(), None),
    ];
    assert_eq!(cells_from_raw(&bad).err(), Some(1));
    let none = vec![("3".to_string(), None)];
    assert_eq!(cells_from_raw(&none).err(), Some(0));
    let one_descendant = vec![("4".to_string(), Some(vec!["<i class=\"u.MB\">".to_string()]))];
    assert_eq!(cells_from_raw(&one_descendant).err(), Some(0));
}

#[test]
fn default_units_are_empty() {
    let u = TrafficUnits::default();
    assert!(u.total.is_empty() && u.last.is_empty() && u.current.is_empty());
    assert!(u.used.is_empty() && u.remaining.is_empty());
}

#[test]
fn warnings_only_on_change() {
    let (s, n) = usage_transition(NotificationState::Under50, NotificationState::Used50);
    assert_eq!(s, NotificationState::Used50);
    let n = n.unwrap();
    assert_eq!(n.title, "50% data warning!");
    assert_eq!(n.body.as_deref(), Some("Consider slowing down"));

    let (s, n) = usage_transition(NotificationState::Used50, NotificationState::Used90);
    assert_eq!(s, NotificationState::Used90);
    let n = n.unwrap();
    assert_eq!(n.title, "90% data warning!");
    assert_eq!(n.body.as_deref(), Some("Tread the interwebs slowly"));

    let (s, n) = usage_transition(NotificationState::Used90, NotificationState::Used90);
    assert_eq!(s, NotificationState::Used90);
    assert!(n.is_none());

    let (s, n) = usage_transition(NotificationState::Used90, NotificationState::Used100);
    assert_eq!(s, NotificationState::Used100);
    assert!(n.is_none());

    let (s, n) = usage_transition(NotificationState::Used100, NotificationState::Under50);
    assert_eq!(s, NotificationState::Under50);
    assert!(n.is_none());
}
