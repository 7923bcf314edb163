use patterns::structural::adapter::EuropeanSocket;
use patterns::structural::adapter::LaptopCharger;
use patterns::structural::adapter::PowerConverter;
use patterns::structural::bridge::Device;
use patterns::structural::bridge::NextGenerationRemoteControl;
use patterns::structural::bridge::RemoteControl;
use patterns::structural::bridge::TV;
use patterns::structural::composite::Button;
use patterns::structural::composite::Component;
use patterns::structural::composite::Dialog;
use patterns::structural::composite::Input;
use patterns::structural::decorator::User;
use patterns::structural::decorator::UserPostgreRepository;
use patterns::structural::decorator::UserRepository;
use patterns::structural::decorator::UserRepositoryWithLogger;
use patterns::structural::facade::CheckoutFacade;
use patterns::structural::facade::DeliveryService;
use patterns::structural::facade::InventoryManagement;
use patterns::structural::facade::Order;
use patterns::structural::facade::OrderStatus;
use patterns::structural::facade::PaymentGateway;
use patterns::structural::facade::ShoppingCart;
use patterns::structural::proxy::Cache;
use patterns::structural::proxy::UserRepositoryWithCache;
use patterns::structural::proxy::decode_user;
use patterns::structural::proxy::encode_user;

#[test]
fn converter_adapts_the_charger_to_the_socket() {
    let charger = LaptopCharger { rating: 500 };
    let socket = EuropeanSocket {};
    let adapter = PowerConverter { charger };
    let line = socket.plug_in(adapter);
    assert_eq!(line, "I am plugged in, in Europe! With power of 95");
}

#[test]
fn remote_control_drives_any_device() {
    let rc = RemoteControl {};
    let mut tv = TV { status: false, volume: 10 };
    rc.turn_device_on(&mut tv);
    assert!(tv.status);
    rc.increment_volume(&mut tv);
    assert_eq!(tv.volume, 11);
    rc.decrement_volume(&mut tv);
    rc.decrement_volume(&mut tv);
    assert_eq!(tv.volume, 9);
    rc.turn_device_off(&mut tv);
    assert!(!tv.status);
    // Turning an already-off device off changes nothing.
    rc.turn_device_off(&mut tv);
    assert!(!tv.status);
    assert_eq!(tv.volume, 9);
}

#[test]
fn next_generation_remote_mutes() {
    let fancy_rc = NextGenerationRemoteControl { rc: RemoteControl {} };
    let mut tv = TV { status: true, volume: 42 };
    fancy_rc.mute(&mut tv);
    assert_eq!(tv.volume, 0);
    assert!(tv.status);
    fancy_rc.rc.increment_volume(&mut tv);
    assert_eq!(tv.volume, 1);
}

#[test]
fn translating_a_dialog_shifts_every_component() {
    let button = Button { x: 1, y: 2 };
    let input = Input { x: 2, y: 4, value: "".to_string() };
    let mut buttons: Dialog<Button> = Dialog::new();
    buttons.add_component(button);
    let mut dialog: Dialog<Dialog<Button>> = Dialog::new_with_coordinate(0, 0);
    dialog.add_component(buttons);
    dialog.translate(10, 20);
    assert_eq!(dialog.get_x(), 10);
    assert_eq!(dialog.get_y(), 20);
    assert_eq!(dialog.components[0].x, 10);
    assert_eq!(dialog.components[0].y, 20);
    assert_eq!(dialog.components[0].components[0].x, 11);
    assert_eq!(dialog.components[0].components[0].y, 22);
    let mut inputs: Dialog<Input> = Dialog::new();
    inputs.add_component(input);
    inputs.translate(10, 20);
    assert_eq!(inputs.components[0].x, 12);
    assert_eq!(inputs.components[0].y, 24);
    assert_eq!(inputs.components[0].value, "");
}

#[test]
fn postgre_repository_always_finds_john_doe() {
    let mut repo = UserPostgreRepository {};
    let user = repo.find_user("anyone".to_string()).unwrap();
    assert_eq!(user.name, "John Doe");
    assert_eq!(user.age, 37);
}

#[test]
fn logging_wrapper_answers_like_the_wrapped_repository() {
    let mut repo = UserRepositoryWithLogger { repo: UserPostgreRepository {} };
    let user = repo.find_user("John Doe".to_string()).unwrap();
    assert_eq!(user.name, "John Doe");
    assert_eq!(user.age, 37);
}

#[test]
fn facade_services_report_their_work() {
    let cart = ShoppingCart {};
    let delivery = DeliveryService {};
    let payment = PaymentGateway {};
    let inventory = InventoryManagement {};
    let order = Order {
        number: "THIS-IS-UUID".to_string(),
        items: vec![],
        status: OrderStatus::IN_PROCESS,
        payment_method: "STEAM_WALLET".to_string(),
    };
    assert_eq!(
        payment.pay_order(order, "tx-1".to_string()),
        "Processing payment of THIS-IS-UUID with tx-1"
    );
    let order = Order {
        number: "THIS-IS-UUID".to_string(),
        items: vec![],
        status: OrderStatus::DELIVERED,
        payment_method: "STEAM_WALLET".to_string(),
    };
    assert_eq!(cart.complete_order(order), "Delivered order THIS-IS-UUID");
    let order = Order {
        number: "THIS-IS-UUID".to_string(),
        items: vec![],
        status: OrderStatus::WAITING_FOR_PAYMENT,
        payment_method: "STEAM_WALLET".to_string(),
    };
    assert_eq!(delivery.place_order_for_delivery(order), "Delivering order...");
    assert_eq!(inventory.get_stock("item-1".to_string()), 8);
    inventory.decrease_stock("item-1".to_string(), 2);
}

#[test]
fn facade_checkout_succeeds() {
    let facade = CheckoutFacade {
        cart: ShoppingCart {},
        payment_gateway: PaymentGateway {},
        inventory: InventoryManagement {},
        delivery: DeliveryService {},
    };
    let user = patterns::structural::facade::User { id: 12, name: "John Doe".to_string() };
    let order = Order {
        number: "THIS-IS-UUID".to_string(),
        items: vec![],
        status: OrderStatus::IN_PROCESS,
        payment_method: "STEAM_WALLET".to_string(),
    };
    assert_eq!(facade.checkout(user, order), Ok(true));
}

#[test]
fn cache_returns_the_newest_value_for_a_key() {
    let mut cache = Cache::new();
    assert!(cache.get("user:John".to_string()).is_none());
    cache.set("user:John".to_string(), "37|John".to_string());
    assert_eq!(cache.get("user:John".to_string()).unwrap(), "37|John");
    cache.set("user:John".to_string(), "38|John".to_string());
    assert_eq!(cache.get("user:John".to_string()).unwrap(), "38|John");
    assert!(cache.get("user:Jane".to_string()).is_none());
}

#[test]
fn user_encoding_reads_back_exactly() {
    let user = User { name: "John Doe".to_string(), age: 37 };
    let text = encode_user(&user);
    assert_eq!(text, "37|John Doe");
    let back = decode_user(&text).unwrap();
    assert_eq!(back.name, "John Doe");
    assert_eq!(back.age, 37);
    // A bar inside the name survives the round trip: the first bar splits.
    let user = User { name: "a|b".to_string(), age: 65535 };
    let back = decode_user(&encode_user(&user)).unwrap();
    assert_eq!(back.name, "a|b");
    assert_eq!(back.age, 65535);
}

#[test]
fn malformed_cache_texts_do_not_decode() {
    assert!(decode_user("no bar").is_none());
    assert!(decode_user("|name").is_none());
    assert!(decode_user("12a|name").is_none());
    assert!(decode_user("65536|name").is_none());
    assert!(decode_user("").is_none());
}

#[test]
fn caching_repository_answers_and_fills_its_cache() {
    let mut cached = UserRepositoryWithCache { repo: UserPostgreRepository {}, cache: Cache::new() };
    let user = cached.find_user("John Doe".to_string()).unwrap();
    assert_eq!(user.name, "John Doe");
    assert_eq!(user.age, 37);
    let stored = cached.cache.get("user:John Doe".to_string()).unwrap();
    assert_eq!(stored, "37|John Doe");
    // The second lookup is served from the cache and answers the same.
    let user = cached.find_user("John Doe".to_string()).unwrap();
    assert_eq!(user.name, "John Doe");
    assert_eq!(user.age, 37);
}
