use scrum::sort::sort_for_display;
use scrum::SortBy;
use scrum::TicketStatus;
use scrum::Tickets;

fn ticket(id: i32, title: &str, priority: &str, updated_at: i64) -> Tickets {
    Tickets::new(
        id,
        title.to_string(),
        String::new(),
        TicketStatus::Open,
        priority.to_string(),
        0,
        updated_at,
    )
}

fn sample() -> Vec<Tickets> {
    vec![
        ticket(3, "mop", "Low", 30),
        ticket(1, "axe", "High", 20),
        ticket(2, "zip", "Medium", 10),
    ]
}

fn ids(v: &[Tickets]) -> Vec<i32> {
    v.iter().map(|t| t.id).collect()
}

#[test]
fn sorting_by_id_orders_numerically() {
    let r = sort_for_display(&sample(), SortBy::ID);
    assert_eq!(ids(&r), vec![1, 2, 3]);
}

#[test]
fn sorting_by_title_orders_lexicographically() {
    let r = sort_for_display(&sample(), SortBy::Title);
    assert_eq!(ids(&r), vec![1, 3, 2]);
}

#[test]
fn sorting_by_priority_puts_high_first() {
    let r = sort_for_display(&sample(), SortBy::Priority);
    assert_eq!(ids(&r), vec![1, 2, 3]);
}

#[test]
fn sorting_by_update_time_orders_by_stamp() {
    let r = sort_for_display(&sample(), SortBy::Updated);
    assert_eq!(ids(&r), vec![2, 1, 3]);
}

#[test]
fn sorting_keeps_every_ticket_and_the_input_untouched() {
    let v = sample();
    let r = sort_for_display(&v, SortBy::Title);
    assert_eq!(r.len(), v.len());
    assert_eq!(ids(&v), vec![3, 1, 2]);
    let mut seen = ids(&r);
    seen.sort();
    assert_eq!(seen, vec![1, 2, 3]);
}

#[test]
fn a_title_prefix_sorts_before_the_longer_title() {
    let v = vec![ticket(1, "pumpkin", "Low", 0), ticket(2, "pump", "Low", 0)];
    let r = sort_for_display(&v, SortBy::Title);
    assert_eq!(ids(&r), vec![2, 1]);
}
