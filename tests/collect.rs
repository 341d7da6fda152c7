use thatsit::collect::{Collected, Collection, Collector};
use thatsit::null::NullWidget;
use thatsit::output::{Error, Output};

fn render_all(collector: &Collector<(), ()>) -> Result<usize, Error> {
    let mut rendered = 0;
    for item in collector.0.iter() {
        item.render(&mut ())?;
        rendered += 1;
    }
    Ok(rendered)
}

#[test]
fn collect_should_collect_callback() -> Result<(), Error> {
    let widget = NullWidget;
    let collector = Collector::<(), ()>::collect_items(|add| {
        add.add("String");
        add.add(String::from("String"));
        add.add(Collected::Box(Box::new(NullWidget)));
        add.add(&widget);
    });
    assert_eq!(render_all(&collector)?, 4);
    Ok(())
}

#[test]
fn collect_should_collect_builder() -> Result<(), Error> {
    let widget = NullWidget;
    let mut collector = Collector::<(), ()>(vec![]);
    collector
        .add("String")
        .add(String::from("String"))
        .add(Collected::Box(Box::new(NullWidget)))
        .add(&widget);
    assert_eq!(render_all(&collector)?, 4);
    Ok(())
}

#[test]
fn output_should_collect_callback() -> Result<(), Error> {
    let widget = NullWidget;
    let collector = Collector::<(), ()>::collect_items(|add| {
        add.add("String");
        add.add(String::from("String"));
        add.add(Collected::Box(Box::new(NullWidget)));
        add.add(&widget);
    });
    render_all(&collector)?;
    Ok(())
}

#[test]
fn output_should_collect_builder() -> Result<(), Error> {
    let widget = NullWidget;
    let mut collector = Collector::<(), ()>(vec![]);
    collector
        .add("String")
        .add(String::from("String"))
        .add(Collected::Box(Box::new(NullWidget)))
        .add(&widget);
    render_all(&collector)?;
    Ok(())
}

#[test]
fn should_collect() {}

#[test]
fn collected_keeps_declaration_order_and_kinds() {
    let widget = NullWidget;
    let collector = Collector::<(), ()>::collect_items(|add| {
        add.add(&widget);
        add.add("boxed");
        add.add(Collected::Empty);
    });
    assert_eq!(collector.0.len(), 3);
    assert!(matches!(collector.0[0], Collected::Ref(_)));
    assert!(matches!(collector.0[1], Collected::Box(_)));
    assert!(matches!(collector.0[2], Collected::Empty));
}

#[test]
fn empty_slot_renders_nothing() {
    let slot: Collected<(), ()> = Collected::Empty;
    assert_eq!(slot.render(&mut ()), Ok(None));
    let boxed: Collected<(), ()> = Collected::Box(Box::new(NullWidget));
    assert_eq!(boxed.render(&mut ()), Ok(Some(())));
}
