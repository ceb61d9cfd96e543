use audiocloud::cloud::ModelFilter;
use audiocloud::domains::{
    default_min_task_length, default_power_cool_down_ms, default_power_idle_ms,
    default_power_warmup_ms,
};
use audiocloud::elysia;
use audiocloud::error::SerializableResult;
use audiocloud::ids::{FixedInstanceId, ModelId};
use audiocloud::instance_driver::InstanceDriverError;
use audiocloud::manufacturers::Manufacturers;
use audiocloud::media::{PlayBitDepth, SampleRate};
use audiocloud::rt_subscriptions::Subscriptions;
use audiocloud::streaming::DiffStamped;
use audiocloud::time::{Span, Timestamp};

#[test]
fn serializable_result_round_trip() {
    let ok: SerializableResult<u8, String> = SerializableResult::from_result(Ok(3));
    assert_eq!(ok.into_result(), Ok(3));
    let err: SerializableResult<u8, String> = SerializableResult::from_result(Err("e".to_string()));
    assert_eq!(err.into_result(), Err("e".to_string()));
}

#[test]
fn sample_rates_and_bit_depths() {
    assert_eq!(usize::from(SampleRate::SR192), 192_000);
    assert_eq!(usize::from(SampleRate::SR96), 96_000);
    assert_eq!(usize::from(SampleRate::SR88_2), 88_200);
    assert_eq!(usize::from(SampleRate::SR48), 48_000);
    assert_eq!(usize::from(SampleRate::SR44_1), 44_100);
    assert_eq!(usize::from(PlayBitDepth::PD24), 24);
    assert_eq!(usize::from(PlayBitDepth::PD16), 16);
}

#[test]
fn diff_stamped_counts_milliseconds() {
    let epoch = Timestamp::epoch();
    let at = epoch.add_span(Span::milliseconds(1_500));
    let mut d = DiffStamped::at(at, epoch, 'x');
    assert_eq!(*d.value(), 'x');
    *d.value_mut() = 'y';
    assert_eq!(d, DiffStamped::at(at, epoch, 'y'));
    let before = DiffStamped::at(epoch, at, 0u8);
    assert_eq!(before, DiffStamped::at(epoch.add_span(Span::milliseconds(-1_500)), epoch, 0u8));
    let fresh = DiffStamped::new(epoch, 1u8);
    assert_eq!(*fresh.value(), 1);
}

#[test]
fn driver_error_messages() {
    let id = FixedInstanceId::new("distopik".to_string(), "dual1084".to_string(), "1".to_string());
    assert_eq!(
        InstanceDriverError::InstanceNotFound { instance: id }.message(),
        "Instance distopik/dual1084/1 does not exist"
    );
    assert_eq!(
        InstanceDriverError::ParameterDoesNotExist { error: "gain".to_string() }.message(),
        "Parameter gain does not exist"
    );
    assert_eq!(
        InstanceDriverError::IOError { error: "x".to_string() }.message(),
        "I/O error: x"
    );
    assert_eq!(
        InstanceDriverError::MediaNotPresent.message(),
        "Media is not present, can't play, record or rewind"
    );
    assert_eq!(
        InstanceDriverError::DriverNotSupported {
            manufacturer: "m".to_string(),
            name: "n".to_string()
        }
        .message(),
        "Driver not found for manufacturer=\u{201d}m\", name=\"n\""
    );
    assert_eq!(
        InstanceDriverError::RPC { error: "down".to_string() }.message(),
        "Remote call failed: down"
    );
}

#[test]
fn manufacturers_and_elysia_models() {
    assert_eq!(Manufacturers::Distopik.to_string(), "distopik");
    assert_eq!(Manufacturers::Elysia.to_string(), "elysia");
    assert_eq!(
        elysia::karacter::distopik_dual_1084_id(),
        ModelId::new("elysia".to_string(), "karacter".to_string())
    );
    assert_eq!(elysia::museq::distopik_dual_1084_id().name, "museq");
    assert_eq!(elysia::nvelope::distopik_dual_1084_id().name, "nvelope");
    assert_eq!(elysia::xfilter::distopik_dual_1084_id().name, "xfilter");
}

#[test]
fn domain_defaults() {
    assert_eq!(default_min_task_length(), 5_000);
    assert_eq!(default_power_warmup_ms(), 2_500);
    assert_eq!(default_power_cool_down_ms(), 2_500);
    assert_eq!(default_power_idle_ms(), 60_000);
}

#[test]
fn model_filter_builders() {
    let a = ModelId::new("a".to_string(), "1".to_string());
    let b = ModelId::new("b".to_string(), "2".to_string());
    let f = ModelFilter::new()
        .with_id_one_of(vec![a.clone(), b.clone(), a.clone()])
        .with_manufacturer_is("a".to_string())
        .with_name_contains("x".to_string());
    assert_eq!(f.id_one_of.len(), 2);
    assert!(f.id_one_of.contains(&a) && f.id_one_of.contains(&b));
    assert_eq!(f.manufacturer_is, Some("a".to_string()));
    assert_eq!(f.name_contains, Some("x".to_string()));
    let empty = ModelFilter::new();
    assert!(empty.id_one_of.is_empty() && empty.manufacturer_is.is_none());
}

#[test]
fn model_filter_extends_ids() {
    let a = ModelId::new("a".to_string(), "1".to_string());
    let b = ModelId::new("b".to_string(), "2".to_string());
    let c = ModelId::new("c".to_string(), "3".to_string());
    let f = ModelFilter::default().with_id_one_of(vec![a.clone(), b.clone()]);
    let g = f.clone().with_id_one_of(vec![b.clone(), c.clone(), c.clone()]);
    assert_eq!(f.id_one_of, vec![a.clone(), b.clone()]);
    assert_eq!(g.id_one_of, vec![a, b, c]);
    assert!(g.manufacturer_is.is_none() && g.name_contains.is_none());
}

#[test]
fn diff_stamped_now_counts_elapsed_milliseconds() {
    let before = audiocloud::time::now();
    let d = DiffStamped::new(before.add_span(Span::milliseconds(-2_000)), 5u8);
    let later = DiffStamped::at(audiocloud::time::now(), before.add_span(Span::milliseconds(-2_000)), 5u8);
    assert_eq!(*d.value(), 5);
    let _ = later;
}

#[test]
fn rt_subscriptions_bookkeeping() {
    use_subscriptions();
}

fn use_subscriptions() {
    let mut s = Subscriptions::new();
    let x = "x".to_string();
    let y = "y".to_string();
    assert!(s.subscribe(&x));
    assert!(s.subscribe(&x));
    assert_eq!(s.events, vec![x.clone()]);
    assert_eq!(s.specs, vec![x.clone()]);
    assert!(!s.unsubscribe(&y));
    assert!(s.unsubscribe(&x));
    assert!(s.events.is_empty() && s.specs.is_empty());
    assert!(!s.unsubscribe(&x));
    s.specs.push(y.clone());
    assert!(s.unsubscribe(&y));
    assert!(s.specs.is_empty());
}
