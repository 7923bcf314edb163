use patterns::creational::abstract_factory::AppUIManager;
use patterns::creational::abstract_factory::Button;
use patterns::creational::abstract_factory::Input;
use patterns::creational::abstract_factory::MacUIManager;
use patterns::creational::abstract_factory::WindowsUIManager;
use patterns::creational::builder::GraphicCard;
use patterns::creational::builder::Memory;
use patterns::creational::builder::Motherboard;
use patterns::creational::builder::PCBuilder;
use patterns::creational::builder::PowerSupply;
use patterns::creational::builder::Processor;
use patterns::creational::builder::Storage;
use patterns::creational::factory::Cargo;
use patterns::creational::factory::SuitableVehicle;
use patterns::creational::factory::VehicleDealer;
use patterns::creational::factory::deliver_cargo;
use patterns::creational::prototype::User;

fn am5_processor() -> Processor {
    Processor {
        socket: "AM5".to_string(),
        series: "7700X".to_string(),
        cores: 8,
        threads: 16,
        tdp: 105,
    }
}

fn am5_motherboard() -> Motherboard {
    Motherboard {
        socket: "AM5".to_string(),
        memory_type: "DDR5".to_string(),
        storage_type: vec!["M.2".to_string(), "SATA".to_string()],
        pcie: "4.0".to_string(),
    }
}

#[test]
fn builder_builds_when_every_part_is_present() {
    let mut b = PCBuilder::new_builder();
    assert!(b.buy_processor(am5_processor()));
    assert!(b.buy_motherboard(am5_motherboard()));
    assert!(b.buy_graphic_card(GraphicCard { socket: "PCIe".to_string(), memory: 8, tdp: 220 }));
    assert!(b.buy_memory(Memory { socket: "DDR5".to_string(), capacity: 32 }));
    assert!(b.buy_storage(Storage { socket: "M.2".to_string() }));
    assert!(b.buy_power_supply(PowerSupply { capacity: 750 }));
    let pc = b.build_pc().unwrap();
    assert_eq!(pc.processor.socket, "AM5");
    assert_eq!(pc.motherboard.memory_type, "DDR5");
    assert_eq!(pc.storage.socket, "M.2");
}

#[test]
fn builder_rejects_incompatible_parts() {
    let mut b = PCBuilder::new_builder();
    assert!(b.buy_motherboard(am5_motherboard()));
    let lga = Processor {
        socket: "LGA1700".to_string(),
        series: "12900K".to_string(),
        cores: 16,
        threads: 24,
        tdp: 125,
    };
    assert!(!b.buy_processor(lga));
    assert!(!b.buy_memory(Memory { socket: "DDR4".to_string(), capacity: 16 }));
    assert!(!b.buy_storage(Storage { socket: "IDE".to_string() }));
}

#[test]
fn builder_reports_missing_parts() {
    let mut b = PCBuilder::new_builder();
    assert!(b.buy_processor(am5_processor()));
    let err = b.build_pc().err().unwrap();
    assert_eq!(
        err,
        "This PC is still missing some required parts. Please check the parts again."
    );
    b.sell_all_parts();
    assert!(b.build_pc().is_err());
}

#[test]
fn builder_selling_a_part_breaks_the_build() {
    let mut b = PCBuilder::new_builder();
    assert!(b.buy_processor(am5_processor()));
    assert!(b.buy_motherboard(am5_motherboard()));
    assert!(b.buy_graphic_card(GraphicCard { socket: "PCIe".to_string(), memory: 8, tdp: 220 }));
    assert!(b.buy_memory(Memory { socket: "DDR5".to_string(), capacity: 32 }));
    assert!(b.buy_storage(Storage { socket: "SATA".to_string() }));
    assert!(b.buy_power_supply(PowerSupply { capacity: 750 }));
    b.sell_memory();
    assert!(b.build_pc().is_err());
}

#[test]
fn dealer_picks_a_truck_for_java_and_a_ship_otherwise() {
    let dealer = VehicleDealer {};
    match dealer.get_suitable_vehicle("Somewhat, West Java, Indonesia".to_string()) {
        SuitableVehicle::Truck(t) => {
            assert_eq!(t.brand, "Toyoda");
            assert_eq!(t.wheel, 4);
            assert_eq!(t.fuel, 10000);
        },
        SuitableVehicle::Ship(_) => panic!("expected a truck for a destination on Java"),
    }
    match dealer.get_suitable_vehicle("Somewhere, Sumatra, Indonesia".to_string()) {
        SuitableVehicle::Ship(s) => {
            assert_eq!(s.name, "S.S Anne");
            assert_eq!(s.fuel, 20000);
        },
        SuitableVehicle::Truck(_) => panic!("expected a ship for a destination off Java"),
    }
}

#[test]
fn delivering_cargo_reports_one_note_per_cargo_in_order() {
    let cargos = vec![
        Cargo { weight: 123, destination: "Somewhere, Sumatra, Indonesia".to_string() },
        Cargo { weight: 456, destination: "Somewhat, West Java, Indonesia".to_string() },
        Cargo { weight: 222, destination: "Somehow, East Java, Indonesia".to_string() },
    ];
    let notes = deliver_cargo(cargos);
    assert_eq!(
        notes,
        vec![
            "Shipping cargo across islands to Somewhere, Sumatra, Indonesia".to_string(),
            "Delivering cargo by truck to Somewhat, West Java, Indonesia".to_string(),
            "Delivering cargo by truck to Somehow, East Java, Indonesia".to_string(),
        ]
    );
}

#[test]
fn abstract_factory_builds_matching_families() {
    let windows = AppUIManager { os_manager: WindowsUIManager {} };
    assert_eq!(windows.create_button().click(), "Hello from Fluent");
    assert_eq!(windows.create_input().on_input("Hello World!".to_string()), "Fluent is typing...");
    assert_eq!(windows.create_input().on_focus(), "Fluent is now focused!");
    assert_eq!(windows.create_input().on_blur(), "Goodbye Fluent!");
    let mac = AppUIManager { os_manager: MacUIManager {} };
    assert_eq!(mac.create_button().click(), "Hello Cupertino");
    assert_eq!(mac.create_input().on_input("Hello World!".to_string()), "Cupertino is typing...");
    assert_eq!(mac.create_input().on_focus(), "Cupertino is now focused!");
    assert_eq!(mac.create_input().on_blur(), "Goodbye Cupertino!");
}

#[test]
fn prototype_clone_copies_every_field() {
    let original = User { name: "John Doe".to_string(), age: 30 };
    let copy = original.clone();
    assert_eq!(copy.name, original.name);
    assert_eq!(copy.age, original.age);
}
